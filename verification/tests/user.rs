use umd_booking::domain::models::{
    Citizenship, OnlyCyrillic, OnlyLatin, Service, User, UserID, Username,
};
use umd_booking::domain::Error;
use umd_booking::time::Date;

#[test]
fn should_allow_valid_chars() {
    assert!(OnlyLatin::new(&"Ivanov Ivan Ivanovich".to_string()).is_ok());
}

#[test]
fn should_not_allow_cyrillic() {
    assert!(OnlyLatin::new(&"Иван".to_string()).is_err());
}

#[test]
fn should_not_allow_special_chars() {
    assert!(OnlyLatin::new(&"Ivan 2".to_string()).is_err());
}

#[test]
fn student_should_allow_valid_chars() {
    assert!(OnlyCyrillic::new(&"Иванов Иван Иванович".to_string()).is_ok());
}

#[test]
fn should_not_allow_not_cyrillic() {
    assert!(OnlyCyrillic::new(&"Ivan".to_string()).is_err());
}

#[test]
fn student_should_not_allow_special_chars() {
    assert!(OnlyCyrillic::new(&"Иван 2".to_string()).is_err());
}

#[test]
fn names_keep_their_text() {
    assert_eq!(OnlyLatin::new("Anna-Maria Schmidt").unwrap().as_str(), "Anna-Maria Schmidt");
    assert_eq!(OnlyCyrillic::new("Ёлкина Анна-Мария").unwrap().as_str(), "Ёлкина Анна-Мария");
    assert_eq!(OnlyLatin::new("").unwrap().as_str(), "");
    assert_eq!(Username::new("ivan").as_str(), "ivan");
}

#[test]
fn invalid_names_say_what_was_given() {
    match OnlyLatin::new("Ivan_2") {
        Err(Error::InvalidValue(text)) => assert_eq!(text, "OnlyLatin: got Ivan_2"),
        other => panic!("unexpected {:?}", other),
    }
    match OnlyCyrillic::new("Иван!") {
        Err(Error::InvalidValue(text)) => assert_eq!(text, "OnlyCyrillic: got Иван!"),
        other => panic!("unexpected {:?}", other),
    }
}

#[test]
fn cyrillic_names_reject_letters_outside_the_russian_alphabet() {
    assert!(OnlyCyrillic::new("Ґанна").is_err());
    assert!(OnlyCyrillic::new("яЯаА").is_ok());
    assert!(OnlyLatin::new("zZaA").is_ok());
    assert!(OnlyLatin::new("é").is_err());
    assert!(OnlyLatin::new("[").is_err());
    assert!(OnlyLatin::new("`").is_err());
    assert!(OnlyLatin::new("{").is_err());
    assert!(OnlyLatin::new("@").is_err());
}

#[test]
fn user_id_keeps_its_number() {
    assert_eq!(UserID::new(42).as_i64(), 42);
    assert_eq!(UserID::new(-7).as_i64(), -7);
    assert_eq!(UserID::new(42), UserID::new(42));
    assert_ne!(UserID::new(42), UserID::new(43));
}

fn ivan() -> User {
    User::new(
        UserID::new(1),
        Username::new("username"),
        OnlyLatin::new("Ivan").unwrap(),
        OnlyCyrillic::new("Иван").unwrap(),
        Citizenship::Armenia,
        Date::from_ymd_opt(2025, 7, 7).unwrap(),
    )
}

#[test]
fn user_getters_and_setters() {
    let mut user = ivan();
    assert_eq!(user.id(), UserID::new(1));
    assert_eq!(user.username().as_str(), "username");
    assert_eq!(user.full_name_lat().as_str(), "Ivan");
    assert_eq!(user.full_name_cyr().as_str(), "Иван");
    assert_eq!(user.citizenship(), &Citizenship::Armenia);
    assert_eq!(user.arrival_date(), &Date::from_ymd_opt(2025, 7, 7).unwrap());

    user.set_full_name_lat(OnlyLatin::new("Petr").unwrap());
    user.set_full_name_cyr(OnlyCyrillic::new("Пётр").unwrap());
    user.set_citizenship(Citizenship::Other("Китай".to_string()));
    user.set_arrival_date(Date::from_ymd_opt(2025, 8, 1).unwrap());
    assert_eq!(user.id(), UserID::new(1));
    assert_eq!(user.username().as_str(), "username");
    assert_eq!(user.full_name_lat().as_str(), "Petr");
    assert_eq!(user.full_name_cyr().as_str(), "Пётр");
    assert_eq!(user.citizenship().as_str(), "Китай");
    assert_eq!(user.arrival_date(), &Date::from_ymd_opt(2025, 8, 1).unwrap());
    assert_eq!(user.clone(), user);
}

#[test]
fn citizenship_names_round_trip() {
    let all = vec![
        (Citizenship::Tajikistan, "Таджикистан"),
        (Citizenship::Uzbekistan, "Узбекистан"),
        (Citizenship::Kazakhstan, "Казахстан"),
        (Citizenship::Kyrgyzstan, "Кыргызстан"),
        (Citizenship::Armenia, "Армения"),
        (Citizenship::Belarus, "Беларусь"),
        (Citizenship::Ukraine, "Украина"),
    ];
    for (citizenship, name) in all {
        assert_eq!(citizenship.as_str(), name);
        assert_eq!(Citizenship::from_name(name), citizenship);
    }
    assert_eq!(Citizenship::from_name("Китай"), Citizenship::Other("Китай".to_string()));
    assert_eq!(Citizenship::Other("Китай".to_string()).as_str(), "Китай");
    assert_eq!(Citizenship::from_name(""), Citizenship::Other(String::new()));
}

#[test]
fn service_deadlines_and_codes() {
    assert!(Service::InitialRegistration.has_deadline());
    assert!(Service::Visa.has_deadline());
    assert!(Service::All.has_deadline());
    assert!(!Service::RenewalOfRegistration.has_deadline());
    assert!(!Service::RenewalOfVisa.has_deadline());
    assert_eq!(
        Service::all(),
        vec![
            Service::InitialRegistration,
            Service::Visa,
            Service::RenewalOfRegistration,
            Service::RenewalOfVisa,
            Service::All,
        ]
    );
    for service in Service::all() {
        assert_eq!(Service::from_code(service.code()).unwrap(), service);
    }
    assert_eq!(Service::Visa.code(), "visa");
    assert_eq!(Service::RenewalOfVisa.code(), "renewal_of_visa");
    assert_eq!(
        Service::from_code("insurance"),
        Err(Error::InvalidValue(
            "invalid Service: expected one of ['initial_registration', 'visa', 'insurance', \
             'visa_and_insurance', 'renewal_of_registration', 'renewal_of_visa', 'all'], got insurance"
                .to_string()
        ))
    );
}
