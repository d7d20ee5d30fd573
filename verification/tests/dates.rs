use crosspub::dates::{parse_date, parse_datetime, DateTime};

#[test]
fn parses_a_plain_date_to_midnight() {
    let dt = parse_date("2023-01-02").unwrap();
    assert_eq!(dt, DateTime { year: 2023, month: 1, day: 2, hour: 0, minute: 0 });
}

#[test]
fn rejects_malformed_dates() {
    assert!(parse_date("2023-1-2").is_none());
    assert!(parse_date("2023/01/02").is_none());
    assert!(parse_date("20230102").is_none());
    assert!(parse_date("2023-01-02 ").is_none());
    assert!(parse_date("abcd-ef-gh").is_none());
    assert!(parse_date("").is_none());
}

#[test]
fn rejects_impossible_dates() {
    assert!(parse_date("2023-13-01").is_none());
    assert!(parse_date("2023-00-10").is_none());
    assert!(parse_date("2023-04-31").is_none());
    assert!(parse_date("2023-01-00").is_none());
    assert!(parse_date("2023-02-29").is_none());
}

#[test]
fn leap_years_allow_february_29() {
    assert!(parse_date("2024-02-29").is_some());
    assert!(parse_date("2000-02-29").is_some());
    assert!(parse_date("1900-02-29").is_none());
}

#[test]
fn parses_a_date_with_time() {
    let dt = parse_datetime("2023-01-02 15:04").unwrap();
    assert_eq!(dt, DateTime { year: 2023, month: 1, day: 2, hour: 15, minute: 4 });
}

#[test]
fn rejects_malformed_datetimes() {
    assert!(parse_datetime("2023-01-02T15:04").is_none());
    assert!(parse_datetime("2023-01-02 24:00").is_none());
    assert!(parse_datetime("2023-01-02 15:60").is_none());
    assert!(parse_datetime("2023-01-02 15:4").is_none());
    assert!(parse_datetime("2023-02-29 10:00").is_none());
}

#[test]
fn compact_form_pads_to_eight_digits() {
    let dt = parse_date("0987-03-09").unwrap();
    assert_eq!(dt.compact_string(), "09870309");
    let dt2 = parse_date("2023-12-31").unwrap();
    assert_eq!(dt2.compact_string(), "20231231");
}

#[test]
fn long_form_pads_single_digit_days_with_a_space() {
    let dt = parse_date("2023-01-02").unwrap();
    assert_eq!(dt.long_date_string(), "January  2, 2023");
    let dt2 = parse_date("2023-11-28").unwrap();
    assert_eq!(dt2.long_date_string(), "November 28, 2023");
}

#[test]
fn chronological_order_is_lexicographic() {
    let a = parse_datetime("2022-12-31 23:59").unwrap();
    let b = parse_date("2023-01-01").unwrap();
    let c = parse_datetime("2023-01-01 00:01").unwrap();
    assert!(a.before(&b));
    assert!(b.before(&c));
    assert!(a.before(&c));
    assert!(!c.before(&a));
    assert!(!b.before(&b));
}

#[test]
fn default_date_is_start_of_1980() {
    assert_eq!(
        DateTime::default(),
        DateTime { year: 1980, month: 1, day: 1, hour: 0, minute: 0 }
    );
}
