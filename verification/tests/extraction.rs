use weather_station::display::weather_text;
use weather_station::fetch::{build_url, extract_report, FetchError};

const FIXTURE: &str = r#"{
    "weather": [ { "id": 800, "description": "clear sky" } ],
    "main": { "temp": 23.5, "humidity": 78, "pressure": 1012.2 },
    "wind": { "speed": 3.5 },
    "name": "Nairobi"
}"#;

#[test]
fn extracts_full_report() {
    let report = extract_report(FIXTURE).unwrap();
    assert_eq!(report.name, "Nairobi");
    assert_eq!(report.description, "clear sky");
    assert_eq!(report.temp_tenths, 235);
    assert_eq!(report.humidity_tenths, 780);
    assert_eq!(report.pressure_tenths, 10122);
    assert_eq!(report.wind_tenths, 35);
}

#[test]
fn fixture_round_trips_into_display() {
    let report = extract_report(FIXTURE).unwrap();
    let text = weather_text(&report);
    assert!(text.contains("Nairobi"));
    assert!(text.contains("clear sky"));
    assert!(text.contains("23.5"));
    assert!(text.contains("78.0"));
    assert!(text.contains("1012.2"));
    assert!(text.contains("3.5"));
}

#[test]
fn empty_condition_list_is_a_deserialization_error() {
    let body = r#"{
        "weather": [],
        "main": { "temp": 23.5, "humidity": 78, "pressure": 1012.2 },
        "wind": { "speed": 3.5 },
        "name": "Nairobi"
    }"#;
    match extract_report(body) {
        Err(FetchError::Deserialization(m)) => {
            assert_eq!(m, "missing weather description");
        },
        other => panic!("expected a deserialization error, got {:?}", other.is_ok()),
    }
}

#[test]
fn missing_main_object_is_a_deserialization_error() {
    let body = r#"{
        "weather": [ { "description": "clear sky" } ],
        "wind": { "speed": 3.5 },
        "name": "Nairobi"
    }"#;
    match extract_report(body) {
        Err(FetchError::Deserialization(m)) => {
            assert_eq!(m, "invalid temperature");
        },
        _ => panic!("expected a deserialization error"),
    }
}

#[test]
fn wrongly_typed_name_is_a_deserialization_error() {
    let body = r#"{
        "weather": [ { "description": "clear sky" } ],
        "main": { "temp": 23.5, "humidity": 78, "pressure": 1012.2 },
        "wind": { "speed": 3.5 },
        "name": 5
    }"#;
    match extract_report(body) {
        Err(FetchError::Deserialization(m)) => {
            assert_eq!(m, "missing location name");
        },
        _ => panic!("expected a deserialization error"),
    }
}

#[test]
fn unparseable_body_is_a_deserialization_error() {
    match extract_report("this is not json") {
        Err(FetchError::Deserialization(m)) => {
            assert_eq!(m, "missing location name");
        },
        _ => panic!("expected a deserialization error"),
    }
    match extract_report("[1, 2, 3]") {
        Err(FetchError::Deserialization(m)) => {
            assert_eq!(m, "missing location name");
        },
        _ => panic!("expected a deserialization error"),
    }
}

#[test]
fn string_typed_number_is_a_deserialization_error() {
    let body = r#"{
        "weather": [ { "description": "clear sky" } ],
        "main": { "temp": "23.5", "humidity": 78, "pressure": 1012.2 },
        "wind": { "speed": 3.5 },
        "name": "Nairobi"
    }"#;
    match extract_report(body) {
        Err(FetchError::Deserialization(m)) => {
            assert_eq!(m, "invalid temperature");
        },
        _ => panic!("expected a deserialization error"),
    }
}

#[test]
fn error_message_accessor() {
    let e = FetchError::Network(String::from("connection refused"));
    assert_eq!(e.message(), "connection refused");
    let e = FetchError::Deserialization(String::from("missing location name"));
    assert_eq!(e.message(), "missing location name");
}

#[test]
fn build_url_exact() {
    let url = build_url(
        &String::from("Nairobi"),
        &String::from("KE"),
        &String::from("demo-key"),
    );
    assert_eq!(
        url,
        "https://api.openweathermap.org/data/2.5/weather?q=Nairobi,KE&units=metric&appid=demo-key"
    );
}
