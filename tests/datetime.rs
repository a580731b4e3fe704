use misskey_purge::datetime::{str_to_datetime, DateWindow, PurgeError};

const JAN_1_2024_JST: i64 = 1704034800000;

#[test]
fn day_is_midnight_at_plus_nine() {
    assert_eq!(str_to_datetime(&String::from("2024-01-01")), Ok(JAN_1_2024_JST));
    assert_eq!(str_to_datetime(&String::from("1970-01-01")), Ok(-9 * 3600 * 1000));
}

#[test]
fn bad_day_is_invalid_date_format() {
    assert_eq!(str_to_datetime(&String::from("2024/01/01")), Err(PurgeError::InvalidDateFormat));
    assert_eq!(str_to_datetime(&String::from("")), Err(PurgeError::InvalidDateFormat));
    assert_eq!(str_to_datetime(&String::from("2024-13-01")), Err(PurgeError::InvalidDateFormat));
}

#[test]
fn contains_upper_open_window_is_always_true() {
    assert!(DateWindow::contains_upper(i64::MAX, None));
    assert!(DateWindow::contains_upper(i64::MIN, None));
    assert!(DateWindow::contains_upper(0, None));
}

#[test]
fn contains_upper_includes_the_bound() {
    assert!(DateWindow::contains_upper(JAN_1_2024_JST, Some(JAN_1_2024_JST)));
    assert!(DateWindow::contains_upper(JAN_1_2024_JST - 1, Some(JAN_1_2024_JST)));
    assert!(!DateWindow::contains_upper(JAN_1_2024_JST + 1, Some(JAN_1_2024_JST)));
}

#[test]
fn window_with_empty_until_is_open() {
    let w = DateWindow::from_args(&String::from("2024-01-01"), &String::new()).unwrap();
    assert_eq!(w, DateWindow { since: JAN_1_2024_JST, until: None });
}

#[test]
fn window_with_until_is_closed() {
    let w = DateWindow::from_args(&String::from("2024-01-01"), &String::from("2024-01-02")).unwrap();
    assert_eq!(w, DateWindow { since: JAN_1_2024_JST, until: Some(JAN_1_2024_JST + 86_400_000) });
}

#[test]
fn window_with_bad_date_fails() {
    assert_eq!(
        DateWindow::from_args(&String::from("yesterday"), &String::new()),
        Err(PurgeError::InvalidDateFormat)
    );
    assert_eq!(
        DateWindow::from_args(&String::from("2024-01-01"), &String::from("soon")),
        Err(PurgeError::InvalidDateFormat)
    );
}
