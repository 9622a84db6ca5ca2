use weather_station::numfmt::{format_tenths, format_u64};
use weather_station::numparse::parse_tenths;

#[test]
fn format_u64_values() {
    assert_eq!(format_u64(0), "0");
    assert_eq!(format_u64(7), "7");
    assert_eq!(format_u64(10), "10");
    assert_eq!(format_u64(1012), "1012");
    assert_eq!(format_u64(1000000), "1000000");
}

#[test]
fn format_tenths_values() {
    assert_eq!(format_tenths(235), "23.5");
    assert_eq!(format_tenths(0), "0.0");
    assert_eq!(format_tenths(-5), "-0.5");
    assert_eq!(format_tenths(-123), "-12.3");
    assert_eq!(format_tenths(10122), "1012.2");
    assert_eq!(format_tenths(780), "78.0");
}

#[test]
fn parse_tenths_plain() {
    assert_eq!(parse_tenths(&String::from("23.5")), Some(235));
    assert_eq!(parse_tenths(&String::from("12")), Some(120));
    assert_eq!(parse_tenths(&String::from("-4")), Some(-40));
    assert_eq!(parse_tenths(&String::from("0.0")), Some(0));
    assert_eq!(parse_tenths(&String::from("1012.2")), Some(10122));
}

#[test]
fn parse_tenths_rounds_half_away_from_zero() {
    assert_eq!(parse_tenths(&String::from("23.55")), Some(236));
    assert_eq!(parse_tenths(&String::from("23.54")), Some(235));
    assert_eq!(parse_tenths(&String::from("0.25")), Some(3));
    assert_eq!(parse_tenths(&String::from("-0.05")), Some(-1));
    assert_eq!(parse_tenths(&String::from("-0.04")), Some(0));
}

#[test]
fn parse_tenths_rejects_malformed_text() {
    assert_eq!(parse_tenths(&String::from("")), None);
    assert_eq!(parse_tenths(&String::from("-")), None);
    assert_eq!(parse_tenths(&String::from("1.")), None);
    assert_eq!(parse_tenths(&String::from(".5")), None);
    assert_eq!(parse_tenths(&String::from("1e5")), None);
    assert_eq!(parse_tenths(&String::from("abc")), None);
    assert_eq!(parse_tenths(&String::from("1.2.3")), None);
    assert_eq!(parse_tenths(&String::from("1 2")), None);
}

#[test]
fn parse_tenths_rejects_oversized_whole_part() {
    assert_eq!(parse_tenths(&String::from("1234567890123456")), None);
    assert_eq!(parse_tenths(&String::from("123456789012345")), Some(1234567890123450));
}

#[test]
fn parse_then_format_round_trip() {
    let v = parse_tenths(&String::from("23.5")).unwrap();
    assert_eq!(format_tenths(v), "23.5");
    for t in [-1234i64, -5, 0, 7, 235, 10122] {
        assert_eq!(parse_tenths(&format_tenths(t)), Some(t));
    }
}
