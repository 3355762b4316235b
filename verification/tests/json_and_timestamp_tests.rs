use vector_ingest::json::json_quote;
use vector_ingest::timestamp::{format_timestamp, parse_timestamp, Timestamp};

#[test]
fn plain_text_is_quoted() {
    assert_eq!(json_quote("hello"), "\"hello\"");
}

#[test]
fn quotes_and_backslashes_are_escaped() {
    assert_eq!(json_quote("a\"b\\c"), "\"a\\\"b\\\\c\"");
}

#[test]
fn control_characters_use_short_escapes_or_hex() {
    assert_eq!(json_quote("\n\t\r"), "\"\\n\\t\\r\"");
    assert_eq!(json_quote("\u{8}\u{c}"), "\"\\b\\f\"");
    assert_eq!(json_quote("\u{1f}\u{1}"), "\"\\u001f\\u0001\"");
}

#[test]
fn unicode_text_passes_through() {
    assert_eq!(json_quote("Montréal – été"), "\"Montréal – été\"");
}

#[test]
fn quoting_matches_serde_json() {
    for s in ["hello", "a\"b\\c", "\n\t\r\u{8}\u{c}\u{1f}\u{1}", "Montréal – été", ""] {
        assert_eq!(json_quote(s), serde_json::to_string(s).unwrap());
    }
}

#[test]
fn timestamp_with_fraction_parses() {
    let t = parse_timestamp("2023-01-15T10:20:30.123456").unwrap();
    let expected = Timestamp {
        year: 2023,
        month: 1,
        day: 15,
        hour: 10,
        minute: 20,
        second: 30,
        micros: 123456,
    };
    assert_eq!(t, expected);
}

#[test]
fn timestamp_without_fraction_parses() {
    let t = parse_timestamp("1999-12-31T23:59:59").unwrap();
    assert_eq!(t.micros, 0);
    assert_eq!(t.year, 1999);
    assert_eq!(t.second, 59);
}

#[test]
fn bad_month_and_bad_day_are_rejected() {
    assert!(parse_timestamp("2023-13-01T00:00:00").is_none());
    assert!(parse_timestamp("2023-00-01T00:00:00").is_none());
    assert!(parse_timestamp("2023-04-31T00:00:00").is_none());
    assert!(parse_timestamp("2023-01-32T00:00:00").is_none());
    assert!(parse_timestamp("2023-01-00T00:00:00").is_none());
}

#[test]
fn leap_years_allow_february_29() {
    assert!(parse_timestamp("2024-02-29T00:00:00").is_some());
    assert!(parse_timestamp("2023-02-29T00:00:00").is_none());
    assert!(parse_timestamp("2000-02-29T00:00:00").is_some());
    assert!(parse_timestamp("1900-02-29T00:00:00").is_none());
}

#[test]
fn malformed_shapes_are_rejected() {
    assert!(parse_timestamp("").is_none());
    assert!(parse_timestamp("2023-01-15 10:20:30").is_none());
    assert!(parse_timestamp("2023-01-15T10:20").is_none());
    assert!(parse_timestamp("2023-01-15T10:20:3x").is_none());
    assert!(parse_timestamp("2023-01-15T10:20:30.12345").is_none());
    assert!(parse_timestamp("2023-01-15T24:00:00").is_none());
    assert!(parse_timestamp("2023-01-15T10:60:00").is_none());
}

#[test]
fn format_writes_the_text_form_back() {
    let t = Timestamp {
        year: 2023,
        month: 1,
        day: 15,
        hour: 10,
        minute: 20,
        second: 30,
        micros: 123456,
    };
    assert_eq!(format_timestamp(&t), "2023-01-15T10:20:30.123456");
    let t2 = Timestamp { year: 7, month: 12, day: 3, hour: 0, minute: 5, second: 9, micros: 42 };
    assert_eq!(format_timestamp(&t2), "0007-12-03T00:05:09.000042");
}

#[test]
fn parse_inverts_format() {
    let t = Timestamp {
        year: 2024,
        month: 2,
        day: 29,
        hour: 23,
        minute: 59,
        second: 58,
        micros: 999999,
    };
    assert_eq!(parse_timestamp(&format_timestamp(&t)), Some(t));
}
