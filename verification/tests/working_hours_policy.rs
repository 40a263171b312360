use umd_booking::domain::models::{ClosedRange, Interval};
use umd_booking::domain::services::{
    Mon2FriWorkingHoursPolicy, Mon2ThuAndFriWithLunchWorkingHoursPolicy, WorkingHoursPolicy,
};
use umd_booking::time::{Date, Duration, Instant, TimeOfDay};

fn default_policy() -> Mon2ThuAndFriWithLunchWorkingHoursPolicy {
    Mon2ThuAndFriWithLunchWorkingHoursPolicy::new(
        ClosedRange {
            start: TimeOfDay::from_hms_opt(10, 0, 0).unwrap(),
            end: TimeOfDay::from_hms_opt(17, 0, 0).unwrap(),
        },
        ClosedRange {
            start: TimeOfDay::from_hms_opt(12, 0, 0).unwrap(),
            end: TimeOfDay::from_hms_opt(16, 0, 0).unwrap(),
        },
        ClosedRange {
            start: TimeOfDay::from_hms_opt(12, 30, 0).unwrap(),
            end: TimeOfDay::from_hms_opt(13, 30, 0).unwrap(),
        },
    )
}

fn at(y: i32, m: u32, d: u32, h: u32, min: u32) -> Instant {
    Date::from_ymd_opt(y, m, d).unwrap().and_hms_opt(h, min, 0).unwrap()
}

fn hour_from(datetime: Instant) -> Interval {
    Interval::new(datetime, datetime.checked_add(Duration::hours(1)).unwrap()).unwrap()
}

#[test]
fn test_weekday_bounds() {
    let policy = default_policy();
    let date = Date::from_ymd_opt(2025, 7, 7).unwrap();

    let result = policy.bounds(date);
    assert!(result.is_some());
    let bounds = result.unwrap();
    let expected = Interval::new(at(2025, 7, 7, 10, 0), at(2025, 7, 7, 17, 0)).unwrap();
    assert_eq!(bounds, expected);
}

#[test]
fn test_friday_bounds() {
    let policy = default_policy();
    let date = Date::from_ymd_opt(2025, 7, 11).unwrap();

    let result = policy.bounds(date);
    assert!(result.is_some());
    let bounds = result.unwrap();
    let expected = Interval::new(at(2025, 7, 11, 12, 0), at(2025, 7, 11, 16, 0)).unwrap();
    assert_eq!(bounds, expected);
}

#[test]
fn test_weekend_bounds() {
    let policy = default_policy();
    let date = Date::from_ymd_opt(2025, 7, 12).unwrap();

    let result = policy.bounds(date);
    assert!(result.is_none());
}

#[test]
fn test_weekend_is_not_working() {
    let policy = default_policy();
    let interval = hour_from(at(2025, 7, 12, 14, 0));

    assert!(!policy.is_working(&interval));
}

#[test]
fn test_weekday_is_working_until_17_hours() {
    let policy = default_policy();
    let interval = hour_from(at(2025, 7, 10, 16, 0));

    assert!(policy.is_working(&interval));
}

#[test]
fn test_friday_is_not_working_from_16() {
    let policy = default_policy();
    let interval = hour_from(at(2025, 7, 11, 16, 0));

    assert!(!policy.is_working(&interval));
}

#[test]
fn test_friday_is_working_until_16() {
    let policy = default_policy();
    let interval = hour_from(at(2025, 7, 11, 15, 0));

    assert!(policy.is_working(&interval));
}

#[test]
fn test_lunch_is_not_working() {
    let policy = default_policy();
    let interval = hour_from(at(2025, 7, 10, 12, 0));

    assert!(!policy.is_working(&interval));
}

#[test]
fn monday_afternoon_is_working_and_the_weekend_never_is() {
    let policy = default_policy();
    assert!(policy.is_working(&hour_from(at(2025, 7, 7, 16, 0))));
    assert!(!policy.is_working(&hour_from(at(2025, 7, 11, 16, 0))));
    for hour in 0..23 {
        assert!(!policy.is_working(&hour_from(at(2025, 7, 12, hour, 0))));
        assert!(!policy.is_working(&hour_from(at(2025, 7, 13, hour, 0))));
    }
}

#[test]
fn interval_that_touches_lunch_is_working() {
    let policy = default_policy();
    let before = Interval::new(at(2025, 7, 7, 11, 30), at(2025, 7, 7, 12, 30)).unwrap();
    let after = Interval::new(at(2025, 7, 7, 13, 30), at(2025, 7, 7, 14, 30)).unwrap();
    let into = Interval::new(at(2025, 7, 7, 11, 30), at(2025, 7, 7, 12, 31)).unwrap();
    let out_of = Interval::new(at(2025, 7, 7, 13, 29), at(2025, 7, 7, 14, 30)).unwrap();
    let within = Interval::new(at(2025, 7, 7, 12, 40), at(2025, 7, 7, 13, 0)).unwrap();
    let around = Interval::new(at(2025, 7, 7, 12, 0), at(2025, 7, 7, 14, 0)).unwrap();
    assert!(policy.is_working(&before));
    assert!(policy.is_working(&after));
    assert!(!policy.is_working(&into));
    assert!(!policy.is_working(&out_of));
    assert!(!policy.is_working(&within));
    assert!(!policy.is_working(&around));
}

#[test]
fn interval_outside_the_bounds_is_not_working() {
    let policy = default_policy();
    assert!(!policy.is_working(&hour_from(at(2025, 7, 7, 9, 30))));
    assert!(policy.is_working(&hour_from(at(2025, 7, 7, 10, 0))));
    assert!(!policy.is_working(&hour_from(at(2025, 7, 7, 16, 1))));
}

#[test]
fn hours_that_do_not_start_before_they_end_give_no_bounds() {
    let nine = TimeOfDay::from_hms_opt(9, 0, 0).unwrap();
    let ten = TimeOfDay::from_hms_opt(10, 0, 0).unwrap();
    let policy = Mon2ThuAndFriWithLunchWorkingHoursPolicy::new(
        ClosedRange { start: ten, end: nine },
        ClosedRange { start: nine, end: nine },
        ClosedRange { start: nine, end: ten },
    );
    assert!(policy.bounds(Date::from_ymd_opt(2025, 7, 7).unwrap()).is_none());
    assert!(policy.bounds(Date::from_ymd_opt(2025, 7, 11).unwrap()).is_none());
    assert!(!policy.is_working(&hour_from(at(2025, 7, 7, 14, 0))));
}

#[test]
fn uniform_policy_works_all_day_from_monday_to_friday() {
    let policy = Mon2FriWorkingHoursPolicy::default();
    for day in 7..=11 {
        let date = Date::from_ymd_opt(2025, 7, day).unwrap();
        let bounds = policy.bounds(date).unwrap();
        assert_eq!(bounds.start(), &date.and_time(TimeOfDay::midnight()));
        assert_eq!(bounds.end(), &date.and_time(TimeOfDay::end_of_day()));
        assert!(policy.is_working(&hour_from(at(2025, 7, day, 0, 0))));
        assert!(policy.is_working(&hour_from(at(2025, 7, day, 22, 59))));
    }
    for day in 12..=13 {
        let date = Date::from_ymd_opt(2025, 7, day).unwrap();
        assert!(policy.bounds(date).is_none());
        assert!(!policy.is_working(&hour_from(at(2025, 7, day, 12, 0))));
    }
}
