use umd_booking::bot::generate_csv;
use umd_booking::bot::report::report_record;
use umd_booking::domain::models::{
    Citizenship, Interval, OnlyCyrillic, OnlyLatin, Reservation, Service, Slot, User, UserID,
    Username,
};
use umd_booking::domain::Error;
use umd_booking::infra::postgres::{
    slot_to_raw_reservations, RawReservation, RawReservationWithUser, RawUser,
};
use umd_booking::time::{Date, Instant};
use umd_booking::usecases::ReservationDTO;

fn at(h: u32, m: u32) -> Instant {
    Date::from_ymd_opt(2025, 7, 14).unwrap().and_hms_opt(h, m, 0).unwrap()
}

fn row(username: &str, service: Service, citizenship: Citizenship) -> ReservationDTO {
    ReservationDTO {
        slot_start: at(9, 5),
        slot_end: at(16, 40),
        service,
        username: username.to_string(),
        user_name_lat: "Ivanov, Ivan".to_string(),
        user_name_cyr: "Иванов \"Иван\"".to_string(),
        citizenship,
        arrival_date: Date::from_ymd_opt(2025, 7, 7).unwrap(),
    }
}

#[test]
fn report_starts_with_the_mark_and_the_titles() {
    let bytes = generate_csv(&Vec::new()).unwrap();
    assert_eq!(&bytes[..3], &[0xEF, 0xBB, 0xBF]);
    assert_eq!(
        String::from_utf8(bytes[3..].to_vec()).unwrap(),
        "#,Начало,Конец,Услуга,Telegram,ФИО (лат),ФИО (кир),Гражданство,Дата прибытия\n"
    );
}

#[test]
fn report_has_one_numbered_line_for_each_reservation() {
    let rows = vec![
        row("ivan", Service::Visa, Citizenship::Armenia),
        row("petr", Service::All, Citizenship::Other("Китай".to_string())),
    ];
    let bytes = generate_csv(&rows).unwrap();
    assert_eq!(&bytes[..3], &[0xEF, 0xBB, 0xBF]);
    let text = String::from_utf8(bytes[3..].to_vec()).unwrap();
    let lines: Vec<&str> = text.lines().collect();
    assert_eq!(lines.len(), 3);
    assert_eq!(
        lines[1],
        "1,09:05,16:40,Получение визы,t.me/ivan/,\"Ivanov, Ivan\",\"Иванов \"\"Иван\"\"\",Армения,07.07.2025"
    );
    assert_eq!(
        lines[2],
        "2,09:05,16:40,Все услуги,t.me/petr/,\"Ivanov, Ivan\",\"Иванов \"\"Иван\"\"\",Китай,07.07.2025"
    );
    assert!(text.ends_with('\n'));
}

#[test]
fn report_record_holds_the_nine_fields() {
    let fields = report_record(12, &row("ivan", Service::RenewalOfVisa, Citizenship::Belarus));
    assert_eq!(
        fields,
        vec![
            "12",
            "09:05",
            "16:40",
            "Продление визы",
            "t.me/ivan/",
            "Ivanov, Ivan",
            "Иванов \"Иван\"",
            "Беларусь",
            "07.07.2025",
        ]
    );
}

fn ivan() -> User {
    User::new(
        UserID::new(7),
        Username::new("ivan"),
        OnlyLatin::new("Ivan").unwrap(),
        OnlyCyrillic::new("Иван").unwrap(),
        Citizenship::Kazakhstan,
        Date::from_ymd_opt(2025, 7, 7).unwrap(),
    )
}

#[test]
fn raw_user_round_trips() {
    let raw = RawUser::from_user(&ivan());
    assert_eq!(
        raw,
        RawUser {
            id: 7,
            username: "ivan".to_string(),
            full_name_lat: "Ivan".to_string(),
            full_name_cyr: "Иван".to_string(),
            citizenship: "Казахстан".to_string(),
            arrival_date: Date::from_ymd_opt(2025, 7, 7).unwrap(),
        }
    );
    assert_eq!(raw.try_into_user(), Ok(ivan()));
}

#[test]
fn raw_user_with_a_bad_name_is_refused() {
    let mut raw = RawUser::from_user(&ivan());
    raw.full_name_cyr = "Ivan".to_string();
    assert_eq!(
        raw.try_into_user(),
        Err(Error::InvalidValue("OnlyCyrillic: got Ivan".to_string()))
    );
    let mut raw = RawUser::from_user(&ivan());
    raw.full_name_lat = "Иван".to_string();
    raw.full_name_cyr = "Ivan".to_string();
    assert_eq!(raw.try_into_user(), Err(Error::InvalidValue("OnlyLatin: got Иван".to_string())));
    let mut raw = RawUser::from_user(&ivan());
    raw.citizenship = "Китай".to_string();
    assert_eq!(
        raw.try_into_user().unwrap().citizenship(),
        &Citizenship::Other("Китай".to_string())
    );
}

#[test]
fn raw_reservation_unpacks() {
    let raw = RawReservationWithUser {
        slot_start: at(10, 0),
        service: Service::Visa,
        user: RawUser::from_user(&ivan()),
    };
    let stored = raw.try_unpack().unwrap();
    assert_eq!(stored.slot_start, at(10, 0));
    assert_eq!(stored.service, Service::Visa);
    assert_eq!(stored.user, ivan());
    let mut user = RawUser::from_user(&ivan());
    user.full_name_lat = "1".to_string();
    let raw = RawReservationWithUser { slot_start: at(10, 0), service: Service::Visa, user };
    assert!(matches!(raw.try_unpack(), Err(Error::InvalidValue(_))));
}

#[test]
fn slot_rows_hold_start_code_and_user() {
    let mut slot = Slot::empty(Interval::new(at(10, 0), at(10, 20)).unwrap(), 3);
    assert!(slot_to_raw_reservations(&slot).is_empty());
    slot.reserve(ivan(), Service::RenewalOfRegistration).unwrap();
    let mut other = ivan();
    other = User::new(
        UserID::new(8),
        other.username().clone(),
        other.full_name_lat().clone(),
        other.full_name_cyr().clone(),
        other.citizenship().clone(),
        *other.arrival_date(),
    );
    slot.reserve(other, Service::All).unwrap();
    assert_eq!(
        slot_to_raw_reservations(&slot),
        vec![
            RawReservation {
                slot_start: at(10, 0),
                service: "renewal_of_registration".to_string(),
                user_id: 7,
            },
            RawReservation { slot_start: at(10, 0), service: "all".to_string(), user_id: 8 },
        ]
    );
    assert_eq!(slot.reservations()[0], Reservation::new(ivan(), Service::RenewalOfRegistration));
}

#[test]
fn report_of_one_reservation() {
    let rows = vec![ReservationDTO {
        slot_start: at(9, 0),
        slot_end: at(9, 20),
        service: Service::All,
        username: "ivan".to_string(),
        user_name_lat: "Ivan".to_string(),
        user_name_cyr: "Иван".to_string(),
        citizenship: Citizenship::Armenia,
        arrival_date: Date::from_ymd_opt(2025, 7, 7).unwrap(),
    }];
    let mut expected = vec![0xEF, 0xBB, 0xBF];
    expected.extend_from_slice(
        "#,Начало,Конец,Услуга,Telegram,ФИО (лат),ФИО (кир),Гражданство,Дата прибытия\n\
         1,09:00,09:20,Все услуги,t.me/ivan/,Ivan,Иван,Армения,07.07.2025\n"
            .as_bytes(),
    );
    assert_eq!(generate_csv(&rows), Ok(expected));
}

#[test]
fn report_times_have_two_digits_each() {
    let mut row = row("ivan", Service::Visa, Citizenship::Armenia);
    let day = Date::from_ymd_opt(2025, 7, 14).unwrap();
    row.slot_start = day.and_hms_opt(0, 0, 59).unwrap();
    row.slot_end = day.and_hms_opt(23, 59, 0).unwrap();
    let fields = report_record(1, &row);
    assert_eq!(fields[1], "00:00");
    assert_eq!(fields[2], "23:59");
    row.slot_start = day.and_hms_opt(7, 8, 9).unwrap();
    row.slot_end = day.and_hms_opt(10, 30, 0).unwrap();
    let fields = report_record(1234567890, &row);
    assert_eq!(fields[0], "1234567890");
    assert_eq!(fields[1], "07:08");
    assert_eq!(fields[2], "10:30");
}
