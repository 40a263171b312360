use crate::domain::models::service::Service;
use crate::domain::models::text::same_text;
use vstd::prelude::*;

verus! {

/// The label under which the chat offers `service`.
pub open spec fn service_label(service: Service) -> Seq<char> {
    match service {
        Service::InitialRegistration => "Первичная регистрация"@,
        Service::Visa => "Получение визы"@,
        Service::RenewalOfRegistration => "Продление регистрации"@,
        Service::RenewalOfVisa => "Продление визы"@,
        Service::All => "Все услуги"@,
    }
}

/// The service that the chat offers under `label`, if there is one.
pub open spec fn service_labelled(label: Seq<char>) -> Option<Service> {
    if label == "Первичная регистрация"@ {
        Some(Service::InitialRegistration)
    } else if label == "Получение визы"@ {
        Some(Service::Visa)
    } else if label == "Продление регистрации"@ {
        Some(Service::RenewalOfRegistration)
    } else if label == "Продление визы"@ {
        Some(Service::RenewalOfVisa)
    } else if label == "Все услуги"@ {
        Some(Service::All)
    } else {
        None
    }
}

/// The label under which the chat offers the service `s`.
pub fn service_to_str(s: &Service) -> (r: &'static str)
    ensures
        r@ == service_label(*s),
{
    match s {
        Service::InitialRegistration => "Первичная регистрация",
        Service::Visa => "Получение визы",
        Service::RenewalOfRegistration => "Продление регистрации",
        Service::RenewalOfVisa => "Продление визы",
        Service::All => "Все услуги",
    }
}

/// The service that the chat offers under the label `s`; `None` where `s`
/// is no such label.
pub fn service_from_str(s: &str) -> (r: Option<Service>)
    ensures
        r == service_labelled(s@),
        r matches Some(service) ==> service_label(service) == s@,
{
    if same_text(s, "Первичная регистрация") {
        Some(Service::InitialRegistration)
    } else if same_text(s, "Получение визы") {
        Some(Service::Visa)
    } else if same_text(s, "Продление регистрации") {
        Some(Service::RenewalOfRegistration)
    } else if same_text(s, "Продление визы") {
        Some(Service::RenewalOfVisa)
    } else if same_text(s, "Все услуги") {
        Some(Service::All)
    } else {
        None
    }
}

} // verus!
