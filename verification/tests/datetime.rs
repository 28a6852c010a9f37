use push_notifications::datetime::{format_datetime, parse_datetime, DateTime};
use push_notifications::error::{Error, ParseError};

#[test]
fn parse_valid_send_date() {
    let dt = parse_datetime("2023-05-01 14:30").unwrap();
    assert_eq!(
        dt,
        DateTime {
            year: 2023,
            month: 5,
            day: 1,
            hour: 14,
            minute: 30
        }
    );
}

#[test]
fn parse_then_format_is_identity() {
    let dt = parse_datetime("2023-05-01 14:30").unwrap();
    assert_eq!(format_datetime(dt), "2023-05-01 14:30");
}

#[test]
fn format_then_parse_is_identity() {
    let dt = DateTime {
        year: 1999,
        month: 12,
        day: 31,
        hour: 23,
        minute: 59,
    };
    let rendered = format_datetime(dt);
    assert_eq!(rendered, "1999-12-31 23:59");
    assert_eq!(parse_datetime(&rendered).unwrap(), dt);
}

#[test]
fn format_pads_every_component() {
    let dt = DateTime {
        year: 7,
        month: 3,
        day: 4,
        hour: 5,
        minute: 6,
    };
    assert_eq!(format_datetime(dt), "0007-03-04 05:06");
}

#[test]
fn parse_rejects_invalid_month() {
    let r = parse_datetime("2023-13-01 14:30");
    assert_eq!(r, Err(Error::Parse(ParseError::InvalidDatetime)));
}

#[test]
fn parse_rejects_month_zero() {
    assert!(parse_datetime("2023-00-01 14:30").is_err());
}

#[test]
fn parse_rejects_day_out_of_range() {
    assert!(parse_datetime("2023-04-31 14:30").is_err());
    assert!(parse_datetime("2023-01-00 14:30").is_err());
}

#[test]
fn parse_handles_leap_years() {
    assert!(parse_datetime("2024-02-29 00:00").is_ok());
    assert!(parse_datetime("2023-02-29 00:00").is_err());
    assert!(parse_datetime("2000-02-29 00:00").is_ok());
    assert!(parse_datetime("1900-02-29 00:00").is_err());
}

#[test]
fn parse_rejects_time_out_of_range() {
    assert!(parse_datetime("2023-05-01 24:00").is_err());
    assert!(parse_datetime("2023-05-01 14:60").is_err());
}

#[test]
fn parse_rejects_wrong_separators() {
    assert!(parse_datetime("2023/05/01 14:30").is_err());
    assert!(parse_datetime("2023-05-01T14:30").is_err());
    assert!(parse_datetime("2023-05-01 14.30").is_err());
}

#[test]
fn parse_rejects_missing_components() {
    assert!(parse_datetime("").is_err());
    assert!(parse_datetime("2023-05-01").is_err());
    assert!(parse_datetime("2023-05-01 14:30:00").is_err());
    assert!(parse_datetime("23-05-01 14:30").is_err());
}

#[test]
fn parse_rejects_non_digits() {
    assert!(parse_datetime("2o23-05-01 14:30").is_err());
    assert!(parse_datetime("2023-o5-01 14:30").is_err());
}
