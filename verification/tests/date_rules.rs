//! The ordered date patterns on concrete values: every accepted encoding
//! of one instant re-encodes to the identical canonical string.

use nova_poshta::datetime::{
    make_date, make_date_time, parse_date_only, parse_date_time, parse_date_time_np,
    render_date_only, render_date_time, render_date_time_np,
};

#[test]
fn five_formats_one_canonical_string() {
    let canonical = "2023-10-11 12:30:00";
    let inputs = vec![
        "2023-10-11 12:30:00",
        "11.10.2023 12:30:00",
        "11-10-2023 12:30:00",
        "12:30 11.10.2023",
    ];
    for s in inputs {
        let dt = parse_date_time(s).unwrap();
        assert_eq!(render_date_time(&dt), canonical);
    }
    let midnight = parse_date_time("2023-10-11").unwrap();
    assert_eq!(render_date_time(&midnight), "2023-10-11 00:00:00");
    let with_seconds = parse_date_time("11.10.2023 12:30:45").unwrap();
    assert_eq!(render_date_time(&with_seconds), "2023-10-11 12:30:45");
}

#[test]
fn unrecognized_formats_fail() {
    assert!(parse_date_time("").is_err());
    assert!(parse_date_time("2023/10/11 12:30:00").is_err());
    assert!(parse_date_time("2023-10-11T12:30:00").is_err());
    assert!(parse_date_time("11.10.2023").is_err());
    assert!(parse_date_time("2023-13-11 12:30:00").is_err());
    assert!(parse_date_time("2023-02-30 12:30:00").is_err());
    assert!(parse_date_time("2023-10-11 24:00:00").is_err());
    assert!(parse_date_time("2023-10-11 12:60:00").is_err());
    let e = parse_date_time("not a date").unwrap_err();
    assert_eq!(e.raw, "not a date");
}

#[test]
fn pattern_order_is_first_match_wins() {
    // Nineteen characters with a dash at index four can only be the
    // year-first pattern; day-first dash inputs have a digit there.
    let a = parse_date_time("2023-10-11 12:30:45").unwrap();
    assert_eq!((a.year, a.month, a.day), (2023, 10, 11));
    let b = parse_date_time("11-10-2023 12:30:45").unwrap();
    assert_eq!((b.year, b.month, b.day), (2023, 10, 11));
    assert_eq!(a, b);
}

#[test]
fn fixed_pattern_codec() {
    let dt = parse_date_time_np("10-10-2023 16:50:33").unwrap();
    assert_eq!(render_date_time_np(&dt), "10-10-2023 16:50:33");
    assert!(parse_date_time_np("2023-10-10 16:50:33").is_err());
    let d = parse_date_only("11.10.2023").unwrap();
    assert_eq!(render_date_only(&d), "11.10.2023");
    assert!(parse_date_only("2023-10-11").is_err());
}

#[test]
fn calendar_validity() {
    assert!(make_date_time(2024, 2, 29, 0, 0, 0).is_some());
    assert!(make_date_time(2023, 2, 29, 0, 0, 0).is_none());
    assert!(make_date_time(1900, 2, 29, 0, 0, 0).is_none());
    assert!(make_date_time(2000, 2, 29, 0, 0, 0).is_some());
    assert!(make_date_time(2023, 4, 31, 0, 0, 0).is_none());
    assert!(make_date_time(2023, 12, 31, 23, 59, 59).is_some());
    assert!(make_date_time(10000, 1, 1, 0, 0, 0).is_none());
    assert!(make_date(2023, 0, 1).is_none());
    assert!(parse_date_time("2024-02-29 00:00:00").is_ok());
    assert!(parse_date_time("2023-02-29 00:00:00").is_err());
}
