//! The interactive query session as a state machine.
//!
//! One step takes the current state and an outside event (a line read from
//! the terminal, or the outcome of a fetch) and returns the next state
//! together with the actions the caller must perform: prompting, fetching
//! a URL, or printing. The caller owns all input and output; every
//! decision is made here.
use crate::color::{color_of, TextColor};
use crate::display::{display_line, report_text};
use crate::fetch::{build_url, error_message, url_text, FetchError};
use crate::report::WeatherReport;
use crate::text::{answer_is_yes, is_yes, trim_line, trim_spec};
use vstd::prelude::*;

verus! {

/// What the session waits for next.
pub enum SessionState {
    /// A city name is being read.
    AwaitCity,
    /// A country code is being read.
    AwaitCountry { city: String },
    /// The outcome of the fetch for this query is awaited.
    AwaitFetch { city: String, country: String },
    /// The continuation answer is being read.
    AwaitContinue,
    /// The session has ended.
    Done,
}

/// An outside happening the session reacts to.
pub enum SessionEvent {
    /// A line was read from the terminal.
    Line(String),
    /// A fetch finished, with a report or a failure.
    FetchDone(Result<WeatherReport, FetchError>),
}

/// Something the caller must do before handing the session its next event.
pub enum SessionAction {
    /// Ask for a city name, then read a line.
    PromptCity,
    /// Ask for a country code, then read a line.
    PromptCountry,
    /// Perform one HTTP GET on this URL and hand back the outcome.
    Fetch { url: String },
    /// Print this report text in this color.
    ShowReport { text: String, color: TextColor },
    /// Print this message to the error stream.
    ShowError { message: String },
    /// Ask whether to search another city, then read a line.
    PromptContinue,
    /// Print the farewell and stop: the session is over.
    Farewell,
}

/// The state and action a session starts with.
pub fn session_start() -> (r: (SessionState, Vec<SessionAction>))
    ensures
        r.0 is AwaitCity,
        r.1@.len() == 1,
        r.1@[0] is PromptCity,
{
    let mut actions: Vec<SessionAction> = Vec::new();
    actions.push(SessionAction::PromptCity);
    (SessionState::AwaitCity, actions)
}

/// One step of the session. City, country and answer lines are trimmed of
/// surrounding whitespace; empty input is passed through to the provider
/// unchecked. A failed fetch is shown on the error stream and the session
/// goes on to the continuation prompt; only an answer other than "yes"
/// (case-insensitively, trimmed) ends it. An event that the current state
/// does not wait for changes nothing.
pub fn session_step(state: SessionState, event: SessionEvent, api_key: &String) -> (r: (
    SessionState,
    Vec<SessionAction>,
))
    ensures
        state is AwaitCity ==> (event matches SessionEvent::Line(l) ==> (
        r.0 matches SessionState::AwaitCountry { city } && city@ == trim_spec(l@) && r.1@.len()
            == 1 && r.1@[0] is PromptCountry)),
        state matches SessionState::AwaitCountry { city } ==> (event matches SessionEvent::Line(
            l,
        ) ==> (r.0 matches SessionState::AwaitFetch { city: c, country } && c@ == city@
            && country@ == trim_spec(l@) && r.1@.len() == 1 && (
        r.1@[0] matches SessionAction::Fetch { url } && url@ == url_text(
            city@,
            trim_spec(l@),
            api_key@,
        )))),
        state is AwaitFetch ==> (event matches SessionEvent::FetchDone(f) ==> (f matches Ok(rep)
            ==> (r.0 is AwaitContinue && r.1@.len() == 2 && (
        r.1@[0] matches SessionAction::ShowReport { text, color } && text@ == report_text(rep)
            && color == color_of(rep.description@)) && r.1@[1] is PromptContinue))),
        state is AwaitFetch ==> (event matches SessionEvent::FetchDone(f) ==> (f matches Err(e)
            ==> (r.0 is AwaitContinue && r.1@.len() == 2 && (
        r.1@[0] matches SessionAction::ShowError { message } && message@
            == "Error fetching weather: "@ + error_message(e)) && r.1@[1] is PromptContinue))),
        state is AwaitContinue ==> (event matches SessionEvent::Line(l) ==> (is_yes(l@) ==> (
        r.0 is AwaitCity && r.1@.len() == 1 && r.1@[0] is PromptCity))),
        state is AwaitContinue ==> (event matches SessionEvent::Line(l) ==> (!is_yes(l@) ==> (
        r.0 is Done && r.1@.len() == 1 && r.1@[0] is Farewell))),
        state is AwaitFetch && event is Line ==> r.0 == state && r.1@.len() == 0,
        !(state is AwaitFetch) && !(state is Done) && event is FetchDone ==> r.0 == state
            && r.1@.len() == 0,
        state is Done ==> r.0 == state && r.1@.len() == 0,
{
    let mut actions: Vec<SessionAction> = Vec::new();
    match (state, event) {
        (SessionState::AwaitCity, SessionEvent::Line(l)) => {
            actions.push(SessionAction::PromptCountry);
            (SessionState::AwaitCountry { city: trim_line(&l) }, actions)
        },
        (SessionState::AwaitCountry { city }, SessionEvent::Line(l)) => {
            let country = trim_line(&l);
            let url = build_url(&city, &country, api_key);
            actions.push(SessionAction::Fetch { url });
            (SessionState::AwaitFetch { city, country }, actions)
        },
        (SessionState::AwaitFetch { city: _, country: _ }, SessionEvent::FetchDone(outcome)) => {
            match outcome {
                Ok(rep) => {
                    let (text, color) = display_line(&rep);
                    actions.push(SessionAction::ShowReport { text, color });
                },
                Err(e) => {
                    let mut message = String::from_str("Error fetching weather: ");
                    message.append(e.message().as_str());
                    actions.push(SessionAction::ShowError { message });
                },
            }
            actions.push(SessionAction::PromptContinue);
            (SessionState::AwaitContinue, actions)
        },
        (SessionState::AwaitContinue, SessionEvent::Line(l)) => {
            if answer_is_yes(&l) {
                actions.push(SessionAction::PromptCity);
                (SessionState::AwaitCity, actions)
            } else {
                actions.push(SessionAction::Farewell);
                (SessionState::Done, actions)
            }
        },
        (s, _) => (s, actions),
    }
}

} // verus!
