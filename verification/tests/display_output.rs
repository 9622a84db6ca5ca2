use weather_station::color::TextColor;
use weather_station::display::{display_line, weather_text};
use weather_station::report::WeatherReport;

fn nairobi_report() -> WeatherReport {
    WeatherReport {
        name: String::from("Nairobi"),
        description: String::from("clear sky"),
        temp_tenths: 235,
        humidity_tenths: 780,
        pressure_tenths: 10122,
        wind_tenths: 35,
    }
}

#[test]
fn weather_text_exact_block() {
    let expected = "Weather in Nairobi: clear sky \u{2600}\u{fe0f}\n> Temperature: 23.5\u{b0}C\n> Humidity: 78.0%\n> Pressure: 1012.2 hPa\n> Wind Speed: 3.5 m/s";
    assert_eq!(weather_text(&nairobi_report()), expected);
}

#[test]
fn weather_text_contains_every_field() {
    let text = weather_text(&nairobi_report());
    assert!(text.contains("Nairobi"));
    assert!(text.contains("clear sky"));
    assert!(text.contains("23.5"));
    assert!(text.contains("78.0"));
    assert!(text.contains("1012.2"));
    assert!(text.contains("3.5"));
}

#[test]
fn weather_text_is_deterministic() {
    let r = nairobi_report();
    let first = weather_text(&r);
    let second = weather_text(&r);
    assert_eq!(first, second);
}

#[test]
fn display_line_pairs_text_with_color() {
    let (text, color) = display_line(&nairobi_report());
    assert_eq!(text, weather_text(&nairobi_report()));
    assert_eq!(color, TextColor::BrightYellow);
}

#[test]
fn display_line_negative_temperature() {
    let r = WeatherReport {
        name: String::from("Oymyakon"),
        description: String::from("snow"),
        temp_tenths: -502,
        humidity_tenths: 600,
        pressure_tenths: 10300,
        wind_tenths: 0,
    };
    let (text, color) = display_line(&r);
    assert!(text.contains("-50.2\u{b0}C"));
    assert!(text.contains("0.0 m/s"));
    assert_eq!(color, TextColor::BrightCyan);
}
