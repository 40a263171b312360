use umd_booking::domain::models::{
    Citizenship, Interval, OnlyCyrillic, OnlyLatin, Reservation, Service, Slot, User, UserID,
    Username,
};
use umd_booking::domain::Error;
use umd_booking::time::{Date, Duration};

fn interval_with_hours(start_h: u32, duration_h: i64) -> Interval {
    let start = Date::from_ymd_opt(2025, 1, 1).unwrap().and_hms_opt(start_h, 0, 0).unwrap();
    Interval::new(start, start.checked_add(Duration::hours(duration_h)).unwrap()).unwrap()
}

fn create_user(id: i64) -> User {
    User::new(
        UserID::new(id),
        Username::new("username"),
        OnlyLatin::new("Ivan").unwrap(),
        OnlyCyrillic::new("Иван").unwrap(),
        Citizenship::Armenia,
        Date::from_ymd_opt(2025, 7, 7).unwrap(),
    )
}

#[test]
fn test_slot_empty_creation() {
    let interval = interval_with_hours(1, 2);
    let slot = Slot::empty(interval.clone(), 1);

    assert!(slot.is_available());
    assert_eq!(slot.interval(), &interval);
}

#[test]
fn test_slot_restore_with_valid_data() {
    let interval = interval_with_hours(1, 2);
    let reservations = vec![
        Reservation::new(create_user(1), Service::All),
        Reservation::new(create_user(2), Service::RenewalOfRegistration),
    ];

    let slot = Slot::restore(interval.clone(), &reservations, 3).unwrap();

    assert_eq!(slot.reservations(), reservations);
    assert!(slot.is_available());
}

#[test]
fn test_slot_restore_with_exceeded_capacity() {
    let interval = interval_with_hours(1, 2);
    let reservations = vec![
        Reservation::new(create_user(1), Service::All),
        Reservation::new(create_user(2), Service::RenewalOfRegistration),
        Reservation::new(create_user(3), Service::Visa),
        Reservation::new(create_user(4), Service::InitialRegistration),
    ];

    let result = Slot::restore(interval, &reservations, 3);

    assert!(result.is_err());
    assert!(matches!(result, Err(Error::MaxCapacityExceeded(3))));
}

#[test]
fn test_slot_reserving() {
    let interval = interval_with_hours(1, 2);
    let mut slot = Slot::empty(interval, 3);
    let user = create_user(1);

    let res = slot.reserve(user, Service::RenewalOfVisa);

    assert!(res.is_ok());
    assert_eq!(slot.reserved(), 1);
    assert!(slot.is_available());
}

#[test]
fn test_slot_reserving_when_full() {
    let interval = interval_with_hours(1, 2);
    let reservations = vec![
        Reservation::new(create_user(1), Service::All),
        Reservation::new(create_user(2), Service::RenewalOfRegistration),
        Reservation::new(create_user(3), Service::Visa),
    ];
    let mut slot = Slot::restore(interval, &reservations, 3).unwrap();
    let user = create_user(4);

    let result = slot.reserve(user, Service::InitialRegistration);

    assert!(matches!(result, Err(Error::MaxCapacityExceeded(3))));
    assert_eq!(slot.reserved(), 3);
}

#[test]
fn test_slot_reserving_twice() {
    let interval = interval_with_hours(1, 2);
    let user = create_user(1);
    let reservations = vec![Reservation::new(user.clone(), Service::All)];
    let mut slot = Slot::restore(interval, &reservations, 2).unwrap();

    let result = slot.reserve(user, Service::InitialRegistration);

    assert!(matches!(result, Err(Error::SlotAlreadyReserved(_))));
    assert_eq!(slot.reserved(), 1);
}

#[test]
fn slot_restore_refuses_a_user_twice() {
    let reservations = vec![
        Reservation::new(create_user(1), Service::All),
        Reservation::new(create_user(2), Service::Visa),
        Reservation::new(create_user(1), Service::Visa),
        Reservation::new(create_user(2), Service::All),
    ];
    let result = Slot::restore(interval_with_hours(1, 2), &reservations, 4);
    assert_eq!(result, Err(Error::SlotAlreadyReserved(UserID::new(1))));
    let result = Slot::restore(interval_with_hours(1, 2), &reservations, 3);
    assert_eq!(result, Err(Error::MaxCapacityExceeded(3)));
}

#[test]
fn slot_takes_users_until_full_then_refuses() {
    for max_size in 0..5usize {
        let mut slot = Slot::empty(interval_with_hours(1, 2), max_size);
        assert!(slot.is_empty());
        for id in 0..max_size {
            assert_eq!(slot.is_available(), true);
            assert_eq!(slot.reserve(create_user(id as i64), Service::Visa), Ok(()));
            assert_eq!(slot.reserved(), id + 1);
        }
        assert!(!slot.is_available());
        assert_eq!(
            slot.reserve(create_user(100), Service::Visa),
            Err(Error::MaxCapacityExceeded(max_size))
        );
        assert_eq!(slot.reserved(), max_size);
        assert_eq!(slot.max_size(), max_size);
    }
}

#[test]
fn slot_refuses_the_same_user_twice() {
    let mut slot = Slot::empty(interval_with_hours(1, 2), 3);
    assert_eq!(slot.reserve(create_user(7), Service::Visa), Ok(()));
    assert_eq!(
        slot.reserve(create_user(7), Service::All),
        Err(Error::SlotAlreadyReserved(UserID::new(7)))
    );
    assert_eq!(slot.reserved(), 1);
}

#[test]
fn full_slot_refuses_the_same_user_for_lack_of_seats() {
    let mut slot = Slot::empty(interval_with_hours(1, 2), 1);
    assert_eq!(slot.reserve(create_user(7), Service::Visa), Ok(()));
    assert_eq!(slot.reserve(create_user(7), Service::All), Err(Error::MaxCapacityExceeded(1)));
}

#[test]
fn slot_cancel_removes_one_reservation_and_keeps_the_others() {
    let mut slot = Slot::empty(interval_with_hours(1, 2), 3);
    slot.reserve(create_user(1), Service::Visa).unwrap();
    slot.reserve(create_user(2), Service::All).unwrap();
    slot.reserve(create_user(3), Service::RenewalOfVisa).unwrap();

    assert_eq!(slot.cancel(UserID::new(9)), Err(Error::UserNotReserved(UserID::new(9))));
    assert_eq!(slot.reserved(), 3);

    assert_eq!(slot.cancel(UserID::new(2)), Ok(()));
    assert_eq!(
        slot.reservations(),
        vec![
            Reservation::new(create_user(1), Service::Visa),
            Reservation::new(create_user(3), Service::RenewalOfVisa),
        ]
    );
    assert_eq!(slot.cancel(UserID::new(2)), Err(Error::UserNotReserved(UserID::new(2))));
    assert_eq!(slot.cancel(UserID::new(1)), Ok(()));
    assert_eq!(slot.cancel(UserID::new(3)), Ok(()));
    assert!(slot.is_empty());
    assert_eq!(slot.cancel(UserID::new(3)), Err(Error::UserNotReserved(UserID::new(3))));
}

#[test]
fn slot_getters() {
    let interval = interval_with_hours(9, 1);
    let mut slot = Slot::empty(interval, 2);
    assert_eq!(slot.start(), *interval.start());
    assert_eq!(slot.max_size(), 2);
    assert_eq!(slot.reserved(), 0);
    slot.reserve(create_user(1), Service::Visa).unwrap();
    let reservation = &slot.reservations()[0];
    assert_eq!(reservation.by(), &create_user(1));
    assert_eq!(reservation.service(), &Service::Visa);
    assert_eq!(slot.clone(), slot);
}
