use umd_booking::domain::models::ClosedRange;
use umd_booking::domain::services::{
    FixedSlotsFactory, Mon2FriWorkingHoursPolicy, Mon2ThuAndFriWithLunchWorkingHoursPolicy,
    SlotsFactory, WorkingHoursPolicy,
};
use umd_booking::domain::Error;
use umd_booking::time::{Date, Duration, Instant, TimeOfDay};

fn default_policy() -> Mon2ThuAndFriWithLunchWorkingHoursPolicy {
    Mon2ThuAndFriWithLunchWorkingHoursPolicy::new(
        ClosedRange {
            start: TimeOfDay::from_hms_opt(10, 0, 0).unwrap(),
            end: TimeOfDay::from_hms_opt(17, 0, 0).unwrap(),
        },
        ClosedRange {
            start: TimeOfDay::from_hms_opt(12, 0, 0).unwrap(),
            end: TimeOfDay::from_hms_opt(16, 0, 0).unwrap(),
        },
        ClosedRange {
            start: TimeOfDay::from_hms_opt(12, 30, 0).unwrap(),
            end: TimeOfDay::from_hms_opt(13, 30, 0).unwrap(),
        },
    )
}

fn at(date: Date, h: u32, min: u32) -> Instant {
    date.and_hms_opt(h, min, 0).unwrap()
}

#[test]
fn test_no_slots_in_weekend() {
    let factory = FixedSlotsFactory::new(3, Duration::minutes(20));
    let wp = default_policy();

    let date = Date::from_ymd_opt(2025, 7, 12).unwrap();

    let slots = factory.create_all(date, &wp);
    assert!(slots.is_empty());
}

#[test]
fn days_without_bounds_have_no_slots() {
    let factory = FixedSlotsFactory::new(3, Duration::minutes(20));
    let split = default_policy();
    let uniform = Mon2FriWorkingHoursPolicy::default();
    for day in 1..=31 {
        let date = Date::from_ymd_opt(2025, 7, day).unwrap();
        if split.bounds(date).is_none() {
            assert!(factory.create_all(date, &split).is_empty());
        } else {
            assert!(!factory.create_all(date, &split).is_empty());
        }
        if uniform.bounds(date).is_none() {
            assert!(factory.create_all(date, &uniform).is_empty());
        } else {
            assert!(!factory.create_all(date, &uniform).is_empty());
        }
    }
}

#[test]
fn monday_slots_tile_the_working_hours_around_lunch() {
    let factory = FixedSlotsFactory::new(3, Duration::minutes(20));
    let date = Date::from_ymd_opt(2025, 7, 7).unwrap();
    let slots = factory.create_all(date, &default_policy());
    let starts: Vec<Instant> = slots.iter().map(|slot| slot.start()).collect();
    let mut expected = Vec::new();
    for (h, m) in [(10, 0), (10, 20), (10, 40), (11, 0), (11, 20), (11, 40), (12, 0)] {
        expected.push(at(date, h, m));
    }
    for h in 13..17 {
        for m in [0, 20, 40] {
            if (h, m) >= (13, 30) {
                expected.push(at(date, h, m));
            }
        }
    }
    assert_eq!(starts, expected);
    assert_eq!(slots.len(), 17);
    for slot in &slots {
        assert!(slot.is_empty());
        assert_eq!(slot.max_size(), 3);
        assert_eq!(
            slot.interval().end(),
            &slot.start().checked_add(Duration::minutes(20)).unwrap()
        );
        assert!(slot.interval().start() < slot.interval().end());
        assert_eq!(slot.interval().start().date(), date);
        assert_eq!(slot.interval().end().date(), date);
    }
}

#[test]
fn friday_slots_end_at_four() {
    let factory = FixedSlotsFactory::new(1, Duration::hours(1));
    let date = Date::from_ymd_opt(2025, 7, 11).unwrap();
    let slots = factory.create_all(date, &default_policy());
    let starts: Vec<Instant> = slots.iter().map(|slot| slot.start()).collect();
    assert_eq!(starts, vec![at(date, 14, 0), at(date, 15, 0)]);
}

#[test]
fn slot_that_would_end_at_midnight_is_left_out() {
    let date = Date::from_ymd_opt(2025, 7, 7).unwrap();
    let uniform = Mon2FriWorkingHoursPolicy::default();
    let slots = FixedSlotsFactory::new(3, Duration::minutes(20)).create_all(date, &uniform);
    assert_eq!(slots.len(), 71);
    assert_eq!(slots[0].start(), at(date, 0, 0));
    assert_eq!(slots[70].start(), at(date, 23, 20));
    assert_eq!(slots[70].interval().end(), &at(date, 23, 40));

    let slots = FixedSlotsFactory::new(3, Duration::hours(7)).create_all(date, &uniform);
    let starts: Vec<Instant> = slots.iter().map(|slot| slot.start()).collect();
    assert_eq!(starts, vec![at(date, 0, 0), at(date, 7, 0), at(date, 14, 0)]);

    let slots = FixedSlotsFactory::new(3, Duration::hours(24)).create_all(date, &uniform);
    assert!(slots.is_empty());
    let slots = FixedSlotsFactory::new(3, Duration::seconds(86_399)).create_all(date, &uniform);
    assert_eq!(slots.len(), 1);
}

#[test]
fn duration_that_is_not_positive_makes_no_slots() {
    let date = Date::from_ymd_opt(2025, 7, 7).unwrap();
    let uniform = Mon2FriWorkingHoursPolicy::default();
    assert!(FixedSlotsFactory::new(3, Duration::zero()).create_all(date, &uniform).is_empty());
    assert!(FixedSlotsFactory::new(3, Duration::minutes(-20))
        .create_all(date, &uniform)
        .is_empty());
    let start = at(date, 10, 0);
    assert!(matches!(
        FixedSlotsFactory::new(3, Duration::zero()).create(start),
        Err(Error::InvalidInterval(_))
    ));
}

#[test]
fn create_makes_one_empty_slot_of_the_fixed_duration() {
    let date = Date::from_ymd_opt(2025, 7, 12).unwrap();
    let factory = FixedSlotsFactory::new(3, Duration::minutes(20));
    let slot = factory.create(at(date, 3, 7)).unwrap();
    assert_eq!(slot.start(), at(date, 3, 7));
    assert_eq!(slot.interval().end(), &at(date, 3, 27));
    assert_eq!(slot.max_size(), 3);
    assert!(slot.is_empty());
    assert!(matches!(factory.create(at(date, 23, 40)), Err(Error::InvalidInterval(_))));
    assert!(factory.create(at(date, 23, 39)).is_ok());
}

#[test]
fn slots_of_the_last_date_do_not_run_past_it() {
    let date = Date::from_epoch_days(95_026_236).unwrap();
    let uniform = Mon2FriWorkingHoursPolicy::default();
    let slots = FixedSlotsFactory::new(1, Duration::hours(6)).create_all(date, &uniform);
    assert!(slots.len() == 0 || slots.len() == 3);
}
