use chrono::{Timelike, Utc};
use umd_booking::domain::models::Interval;
use umd_booking::domain::Error;
use umd_booking::time::{Date, Duration, Instant, TimeOfDay};

fn now() -> Instant {
    let now = Utc::now();
    let date = Date::from_epoch_days(now.date_naive().to_epoch_days()).unwrap();
    let time = TimeOfDay::from_num_seconds_from_midnight_opt(
        now.time().num_seconds_from_midnight(),
        now.time().nanosecond() % 1_000_000_000,
    )
    .unwrap();
    Instant::new(date, time)
}

fn interval_with_hours(start_h: i64, end_h: i64) -> Interval {
    let midnight = Date::from_ymd_opt(2025, 1, 1).unwrap().and_hms_opt(0, 0, 0).unwrap();
    let start = midnight.checked_add(Duration::hours(start_h)).unwrap();
    let end = midnight.checked_add(Duration::hours(end_h)).unwrap();
    Interval::new(start, end).unwrap()
}

#[test]
fn test_creation_and_accessors() {
    let start = Date::from_ymd_opt(2025, 1, 1).unwrap().and_hms_opt(9, 30, 0).unwrap();
    let end = start.checked_add(Duration::hours(1)).unwrap();
    let interval = Interval::new(start, end).unwrap();

    assert_eq!(interval.start(), &start);
    assert_eq!(interval.end(), &end);
}

#[test]
fn test_error_if_interval_is_invalid() {
    let start = now();
    let end = start.checked_add(Duration::hours(1)).unwrap();
    let res = Interval::new(end, start);
    assert!(res.is_err());
    assert!(matches!(res, Err(Error::InvalidInterval(_))));
}

#[test]
fn test_error_if_interval_greater_then_one_day() {
    let start = now();
    let end = start.checked_add(Duration::hours(25)).unwrap();
    let res = Interval::new(start, end);
    assert!(res.is_err());
    assert!(matches!(res, Err(Error::InvalidInterval(_))));
}

#[test]
fn test_contains() {
    let base = interval_with_hours(1, 5);

    assert!(base.contains(&interval_with_hours(1, 5)));
    assert!(base.contains(&interval_with_hours(2, 4)));
    assert!(!base.contains(&interval_with_hours(2, 6)));
    assert!(!base.contains(&interval_with_hours(0, 2)));
}

#[test]
fn test_overlaps() {
    let base = interval_with_hours(2, 5);

    assert!(base.overlaps(&interval_with_hours(4, 6)));
    assert!(base.overlaps(&interval_with_hours(1, 3)));
    assert!(!base.overlaps(&interval_with_hours(5, 7)));
    assert!(!base.overlaps(&interval_with_hours(6, 8)));
}

#[test]
fn test_is_disjoint() {
    let base = interval_with_hours(2, 5);

    assert!(base.is_disjoint(&interval_with_hours(0, 1)));
    assert!(base.is_disjoint(&interval_with_hours(6, 8)));
    assert!(base.is_disjoint(&interval_with_hours(5, 7)));
    assert!(!base.is_disjoint(&interval_with_hours(4, 6)));
}

#[test]
fn test_separate_with() {
    let base = interval_with_hours(2, 5);

    assert!(base.separate_with(&interval_with_hours(0, 1)));
    assert!(base.separate_with(&interval_with_hours(6, 8)));
    assert!(!base.separate_with(&interval_with_hours(4, 6)));
    assert!(!base.separate_with(&interval_with_hours(3, 4)));
    assert!(!base.separate_with(&interval_with_hours(1, 6)));
}

#[test]
fn interval_of_zero_length_is_invalid() {
    let start = Date::from_ymd_opt(2025, 1, 1).unwrap().and_hms_opt(9, 0, 0).unwrap();
    assert!(matches!(Interval::new(start, start), Err(Error::InvalidInterval(_))));
    assert!(matches!(
        Interval::with_duration(start, Duration::zero()),
        Err(Error::InvalidInterval(_))
    ));
    assert!(matches!(
        Interval::with_duration(start, Duration::seconds(-60)),
        Err(Error::InvalidInterval(_))
    ));
}

#[test]
fn interval_that_ends_at_next_midnight_is_invalid() {
    let start = Date::from_ymd_opt(2025, 1, 1).unwrap().and_hms_opt(23, 40, 0).unwrap();
    assert!(matches!(
        Interval::with_duration(start, Duration::minutes(20)),
        Err(Error::InvalidInterval(_))
    ));
    let shorter = Interval::with_duration(start, Duration::seconds(20 * 60 - 1)).unwrap();
    assert_eq!(shorter.start(), &start);
    assert_eq!(
        shorter.end(),
        &Date::from_ymd_opt(2025, 1, 1).unwrap().and_hms_opt(23, 59, 59).unwrap()
    );
    assert_eq!(shorter.date(), Date::from_ymd_opt(2025, 1, 1).unwrap());
}

#[test]
fn interval_with_duration_has_the_given_length() {
    let start = Date::from_ymd_opt(2025, 7, 7).unwrap().and_hms_opt(10, 0, 0).unwrap();
    let interval = Interval::with_duration(start, Duration::minutes(20)).unwrap();
    assert_eq!(
        interval.end(),
        &Date::from_ymd_opt(2025, 7, 7).unwrap().and_hms_opt(10, 20, 0).unwrap()
    );
}
