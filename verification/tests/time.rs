use chrono::{Datelike, NaiveDate};
use umd_booking::time::calendar::{MAX_EPOCH_DAYS, MIN_EPOCH_DAYS};
use umd_booking::time::{Date, Duration, Instant, TimeOfDay, Weekday};

#[test]
fn dates_count_days_from_1970() {
    assert_eq!(Date::from_ymd_opt(1970, 1, 1).unwrap().to_epoch_days(), 0);
    assert_eq!(Date::from_ymd_opt(1969, 12, 31).unwrap().to_epoch_days(), -1);
    assert_eq!(Date::from_ymd_opt(2005, 9, 10).unwrap().to_epoch_days(), 13036);
    assert_eq!(Date::from_ymd_opt(2025, 7, 7).unwrap().to_epoch_days(), 20276);
    assert_eq!(Date::from_ymd_opt(1, 1, 1).unwrap().to_epoch_days(), -719162);
    assert_eq!(Date::from_epoch_days(20276), Date::from_ymd_opt(2025, 7, 7));
}

#[test]
fn dates_that_the_calendar_lacks_are_refused() {
    assert!(Date::from_ymd_opt(2025, 2, 29).is_none());
    assert!(Date::from_ymd_opt(2024, 2, 29).is_some());
    assert!(Date::from_ymd_opt(2025, 0, 1).is_none());
    assert!(Date::from_ymd_opt(2025, 13, 1).is_none());
    assert!(Date::from_ymd_opt(2025, 4, 31).is_none());
    assert!(Date::from_ymd_opt(400_000, 1, 1).is_none());
    assert!(Date::from_ymd_opt(-400_000, 1, 1).is_none());
}

#[test]
fn range_of_dates_is_that_of_the_calendar() {
    assert_eq!(NaiveDate::MIN.to_epoch_days(), MIN_EPOCH_DAYS);
    assert_eq!(NaiveDate::MAX.to_epoch_days(), MAX_EPOCH_DAYS);
    assert!(NaiveDate::from_epoch_days(MIN_EPOCH_DAYS - 1).is_none());
    assert!(NaiveDate::from_epoch_days(MAX_EPOCH_DAYS + 1).is_none());
    assert!(Date::from_epoch_days(MIN_EPOCH_DAYS - 1).is_none());
    assert!(Date::from_epoch_days(MAX_EPOCH_DAYS + 1).is_none());
    let first = Date::from_epoch_days(MIN_EPOCH_DAYS).unwrap();
    let last = Date::from_epoch_days(MAX_EPOCH_DAYS).unwrap();
    assert_eq!(Some(first), Date::from_ymd_opt(-262_143, 1, 1));
    assert_eq!(Some(last), Date::from_ymd_opt(262_142, 12, 31));
    assert_eq!(first.weekday().num_days_from_monday(), NaiveDate::MIN.weekday().num_days_from_monday());
    assert_eq!(last.weekday().num_days_from_monday(), NaiveDate::MAX.weekday().num_days_from_monday());
    assert!(last.succ_opt().is_none());
    assert!(last.checked_add_days(1).is_none());
    assert_eq!(last.checked_add_days(0), Some(last));
    assert_eq!(first.checked_add_days(u64::MAX), None);
}

#[test]
fn weekdays_follow_the_calendar() {
    assert_eq!(Date::from_ymd_opt(2025, 7, 7).unwrap().weekday(), Weekday::Mon);
    assert_eq!(Date::from_ymd_opt(2025, 7, 8).unwrap().weekday(), Weekday::Tue);
    assert_eq!(Date::from_ymd_opt(2025, 7, 9).unwrap().weekday(), Weekday::Wed);
    assert_eq!(Date::from_ymd_opt(2025, 7, 10).unwrap().weekday(), Weekday::Thu);
    assert_eq!(Date::from_ymd_opt(2025, 7, 11).unwrap().weekday(), Weekday::Fri);
    assert_eq!(Date::from_ymd_opt(2025, 7, 12).unwrap().weekday(), Weekday::Sat);
    assert_eq!(Date::from_ymd_opt(2025, 7, 13).unwrap().weekday(), Weekday::Sun);
    assert_eq!(Date::from_ymd_opt(1970, 1, 1).unwrap().weekday(), Weekday::Thu);
    for n in 0..7 {
        assert_eq!(Weekday::from_days_from_monday(n).num_days_from_monday(), n);
    }
}

#[test]
fn dates_step_and_compare() {
    let date = Date::from_ymd_opt(2025, 12, 31).unwrap();
    assert_eq!(date.succ_opt(), Date::from_ymd_opt(2026, 1, 1));
    assert_eq!(date.checked_add_days(15), Date::from_ymd_opt(2026, 1, 15));
    assert!(date < date.succ_opt().unwrap());
    assert!(date <= date);
    assert!(!(date > date));
    assert!(date.succ_opt().unwrap() >= date);
}

#[test]
fn times_of_day() {
    let t = TimeOfDay::from_hms_opt(12, 30, 15).unwrap();
    assert_eq!(t.num_seconds_from_midnight(), 12 * 3600 + 30 * 60 + 15);
    assert_eq!(t.nanosecond(), 0);
    assert!(TimeOfDay::from_hms_opt(24, 0, 0).is_none());
    assert!(TimeOfDay::from_hms_opt(0, 60, 0).is_none());
    assert!(TimeOfDay::from_hms_opt(0, 0, 60).is_none());
    assert!(TimeOfDay::from_num_seconds_from_midnight_opt(86_400, 0).is_none());
    assert!(TimeOfDay::from_num_seconds_from_midnight_opt(0, 1_000_000_000).is_none());
    let late = TimeOfDay::from_num_seconds_from_midnight_opt(86_399, 999_999_999).unwrap();
    assert_eq!(late, TimeOfDay::end_of_day());
    assert_eq!(TimeOfDay::from_hms_opt(0, 0, 0).unwrap(), TimeOfDay::midnight());
    assert!(TimeOfDay::midnight() < t);
    assert!(t < late);
    assert!(TimeOfDay::from_num_seconds_from_midnight_opt(5, 7).unwrap()
        < TimeOfDay::from_num_seconds_from_midnight_opt(5, 8).unwrap());
}

#[test]
fn durations() {
    assert_eq!(Duration::minutes(20), Duration::seconds(1200));
    assert_eq!(Duration::hours(2), Duration::minutes(120));
    assert_eq!(Duration::new(3, 500).unwrap().whole_seconds(), 3);
    assert_eq!(Duration::new(3, 500).unwrap().subsec_nanos(), 500);
    assert!(Duration::new(0, 1_000_000_000).is_none());
    assert!(Duration::new(0, 1).unwrap().is_positive());
    assert!(!Duration::zero().is_positive());
    assert!(!Duration::new(-1, 999_999_999).unwrap().is_positive());
    assert!(Duration::seconds(1).is_positive());
}

fn at(y: i32, m: u32, d: u32, h: u32, min: u32, s: u32) -> Instant {
    Date::from_ymd_opt(y, m, d).unwrap().and_hms_opt(h, min, s).unwrap()
}

#[test]
fn instants_add_durations_across_days() {
    let start = at(2025, 7, 7, 23, 50, 0);
    assert_eq!(start.checked_add(Duration::minutes(20)), Some(at(2025, 7, 8, 0, 10, 0)));
    assert_eq!(start.checked_add(Duration::minutes(-20)), Some(at(2025, 7, 7, 23, 30, 0)));
    assert_eq!(start.checked_add(Duration::hours(-24)), Some(at(2025, 7, 6, 23, 50, 0)));
    assert_eq!(
        at(2025, 7, 7, 0, 0, 0).checked_add(Duration::seconds(-1)),
        Some(at(2025, 7, 6, 23, 59, 59))
    );
    assert_eq!(
        at(2025, 12, 31, 12, 0, 0).checked_add(Duration::hours(24 * 366)),
        Some(at(2027, 1, 1, 12, 0, 0))
    );
    let half = Duration::new(0, 500_000_000).unwrap();
    let later = start.checked_add(half).unwrap().checked_add(half).unwrap();
    assert_eq!(later, at(2025, 7, 7, 23, 50, 1));
    let back = Duration::new(-1, 999_999_999).unwrap();
    let earlier = at(2025, 7, 7, 0, 0, 0).checked_add(back).unwrap();
    assert_eq!(earlier.date(), Date::from_ymd_opt(2025, 7, 6).unwrap());
    assert_eq!(earlier.time(), TimeOfDay::end_of_day());
    assert_eq!(start.checked_add(Duration::zero()), Some(start));
}

#[test]
fn instants_outside_the_range_of_dates_are_refused() {
    let last = Date::from_epoch_days(MAX_EPOCH_DAYS).unwrap().and_time(TimeOfDay::end_of_day());
    assert!(last.checked_add(Duration::new(0, 1).unwrap()).is_none());
    assert_eq!(last.checked_add(Duration::zero()), Some(last));
    let first = Date::from_epoch_days(MIN_EPOCH_DAYS).unwrap().and_time(TimeOfDay::midnight());
    assert!(first.checked_add(Duration::new(-1, 999_999_999).unwrap()).is_none());
    assert!(first.checked_add(Duration::seconds(i64::MAX)).is_none());
    assert!(last.checked_add(Duration::seconds(i64::MIN)).is_none());
    assert!(first.checked_add(Duration::hours(24)).is_some());
}

#[test]
fn instants_compare_as_they_lie_in_time() {
    let a = at(2025, 7, 7, 10, 0, 0);
    let b = at(2025, 7, 7, 10, 0, 1);
    let c = at(2025, 7, 8, 0, 0, 0);
    assert!(a < b && b < c && a < c);
    assert!(c > a && b >= a && a <= a);
    assert_eq!(a.date(), Date::from_ymd_opt(2025, 7, 7).unwrap());
    assert_eq!(a.time(), TimeOfDay::from_hms_opt(10, 0, 0).unwrap());
    assert!(Date::from_ymd_opt(2025, 7, 7).unwrap().and_hms_opt(24, 0, 0).is_none());
}

#[test]
fn weekdays_cycle_from_the_thursday_of_1970() {
    let mut days: Vec<i32> = (-800_000..800_000).step_by(13).collect();
    days.extend(MIN_EPOCH_DAYS..MIN_EPOCH_DAYS + 15);
    days.extend(MAX_EPOCH_DAYS - 15..=MAX_EPOCH_DAYS);
    days.extend(-15..15);
    for n in days {
        let weekday = Date::from_epoch_days(n).unwrap().weekday();
        assert_eq!(weekday.num_days_from_monday() as i64, (n as i64 + 3).rem_euclid(7));
        assert_eq!(
            weekday.num_days_from_monday(),
            NaiveDate::from_epoch_days(n).unwrap().weekday().num_days_from_monday()
        );
    }
}
