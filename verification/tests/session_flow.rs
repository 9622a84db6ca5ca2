use weather_station::fetch::FetchError;
use weather_station::report::WeatherReport;
use weather_station::session::{
    session_start, session_step, SessionAction, SessionEvent, SessionState,
};
use weather_station::text::{answer_is_yes, trim_line};

fn paris_report() -> WeatherReport {
    WeatherReport {
        name: String::from("Paris"),
        description: String::from("rain"),
        temp_tenths: 121,
        humidity_tenths: 900,
        pressure_tenths: 10005,
        wind_tenths: 52,
    }
}

/// Runs the scripted input through the session, answering every Fetch
/// action with the given outcome, and returns how many fetches were asked
/// for.
fn run_scripted(lines: Vec<&str>, mut outcomes: Vec<Result<WeatherReport, FetchError>>) -> usize {
    let api_key = String::from("demo-key");
    let (mut state, mut actions) = session_start();
    let mut fetches: usize = 0;
    let mut line_iter = lines.into_iter();
    loop {
        let mut next_event: Option<SessionEvent> = None;
        for a in &actions {
            match a {
                SessionAction::PromptCity
                | SessionAction::PromptCountry
                | SessionAction::PromptContinue => {
                    let l = line_iter.next().expect("script ran out of input");
                    next_event = Some(SessionEvent::Line(String::from(l)));
                },
                SessionAction::Fetch { url } => {
                    assert!(url.starts_with("https://api.openweathermap.org/data/2.5/weather?q="));
                    fetches += 1;
                    let outcome = outcomes.remove(0);
                    next_event = Some(SessionEvent::FetchDone(outcome));
                },
                SessionAction::ShowReport { .. } | SessionAction::ShowError { .. } => {},
                SessionAction::Farewell => {
                    return fetches;
                },
            }
        }
        let event = next_event.expect("session asked for nothing");
        let step = session_step(state, event, &api_key);
        state = step.0;
        actions = step.1;
    }
}

#[test]
fn scripted_session_performs_two_fetches() {
    let fetches = run_scripted(
        vec!["Nairobi", "KE", "yes", "Paris", "FR", "no"],
        vec![
            Err(FetchError::Network(String::from("connection timed out"))),
            Ok(paris_report()),
        ],
    );
    assert_eq!(fetches, 2);
}

#[test]
fn city_and_country_lines_are_trimmed_into_the_url() {
    let api_key = String::from("demo-key");
    let (state, _) = session_start();
    let (state, actions) =
        session_step(state, SessionEvent::Line(String::from("  Nairobi \n")), &api_key);
    assert!(actions.len() == 1 && matches!(actions[0], SessionAction::PromptCountry));
    let (state, actions) =
        session_step(state, SessionEvent::Line(String::from(" KE\n")), &api_key);
    assert!(matches!(state, SessionState::AwaitFetch { .. }));
    match &actions[0] {
        SessionAction::Fetch { url } => {
            assert_eq!(
                url,
                "https://api.openweathermap.org/data/2.5/weather?q=Nairobi,KE&units=metric&appid=demo-key"
            );
        },
        _ => panic!("expected a fetch action"),
    }
}

#[test]
fn failed_fetch_shows_error_and_continues() {
    let api_key = String::from("demo-key");
    let state = SessionState::AwaitFetch {
        city: String::from("Nairobi"),
        country: String::from("KE"),
    };
    let outcome = Err(FetchError::Network(String::from("connection refused")));
    let (state, actions) = session_step(state, SessionEvent::FetchDone(outcome), &api_key);
    assert!(matches!(state, SessionState::AwaitContinue));
    assert_eq!(actions.len(), 2);
    match &actions[0] {
        SessionAction::ShowError { message } => {
            assert_eq!(message, "Error fetching weather: connection refused");
        },
        _ => panic!("expected an error line"),
    }
    assert!(matches!(actions[1], SessionAction::PromptContinue));
    let (state, actions) = session_step(state, SessionEvent::Line(String::from("no")), &api_key);
    assert!(matches!(state, SessionState::Done));
    assert!(actions.len() == 1 && matches!(actions[0], SessionAction::Farewell));
}

#[test]
fn successful_fetch_shows_report_and_continues() {
    let api_key = String::from("demo-key");
    let state = SessionState::AwaitFetch {
        city: String::from("Paris"),
        country: String::from("FR"),
    };
    let (state, actions) =
        session_step(state, SessionEvent::FetchDone(Ok(paris_report())), &api_key);
    assert!(matches!(state, SessionState::AwaitContinue));
    assert_eq!(actions.len(), 2);
    match &actions[0] {
        SessionAction::ShowReport { text, color } => {
            assert!(text.contains("Paris"));
            assert!(text.contains("12.1\u{b0}C"));
            assert_eq!(*color, weather_station::color::TextColor::BrightBlue);
        },
        _ => panic!("expected a report"),
    }
    assert!(matches!(actions[1], SessionAction::PromptContinue));
}

#[test]
fn unexpected_event_changes_nothing() {
    let api_key = String::from("demo-key");
    let (state, _) = session_start();
    let outcome = Ok(paris_report());
    let (state, actions) = session_step(state, SessionEvent::FetchDone(outcome), &api_key);
    assert!(matches!(state, SessionState::AwaitCity));
    assert!(actions.is_empty());
}

#[test]
fn continuation_answer_is_case_insensitive_and_trimmed() {
    assert!(answer_is_yes(&String::from("yes")));
    assert!(answer_is_yes(&String::from(" YES \n")));
    assert!(answer_is_yes(&String::from("Yes")));
    assert!(!answer_is_yes(&String::from("no")));
    assert!(!answer_is_yes(&String::from("yes!")));
    assert!(!answer_is_yes(&String::from("")));
    assert!(!answer_is_yes(&String::from("y")));
}

#[test]
fn trim_line_removes_surrounding_whitespace_only() {
    assert_eq!(trim_line(&String::from("  Nairobi \n")), "Nairobi");
    assert_eq!(trim_line(&String::from("New York\n")), "New York");
    assert_eq!(trim_line(&String::from("\t\r\n ")), "");
    assert_eq!(trim_line(&String::from("plain")), "plain");
}

#[test]
fn trim_line_removes_unicode_whitespace() {
    assert_eq!(trim_line(&String::from("\u{a0}Nairobi\u{2028}")), "Nairobi");
    assert_eq!(trim_line(&String::from("\u{3000} Paris \u{202f}")), "Paris");
    assert!(answer_is_yes(&String::from("\u{2009}YES\u{85}")));
}
