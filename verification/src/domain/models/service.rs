use crate::domain::error::Error;
use crate::domain::models::text::same_text;
use vstd::prelude::*;
use vstd::string::StringExecFns;

verus! {

/// The kind of appointment that is asked for.
#[derive(Debug, Clone, Copy, PartialEq, Eq, Structural, Hash)]
pub enum Service {
    InitialRegistration,
    Visa,
    RenewalOfRegistration,
    RenewalOfVisa,
    All,
}

impl Service {
    /// Whether the service must be booked within the deadline that follows
    /// the user's arrival.
    pub open spec fn has_deadline_spec(&self) -> bool {
        *self == Service::InitialRegistration || *self == Service::Visa || *self == Service::All
    }

    /// The word by which the service is stored.
    pub open spec fn code_spec(&self) -> Seq<char> {
        match self {
            Service::InitialRegistration => "initial_registration"@,
            Service::Visa => "visa"@,
            Service::RenewalOfRegistration => "renewal_of_registration"@,
            Service::RenewalOfVisa => "renewal_of_visa"@,
            Service::All => "all"@,
        }
    }

    /// The service that is stored as `code`, if there is one.
    pub open spec fn of_code(code: Seq<char>) -> Option<Service> {
        if code == "initial_registration"@ {
            Some(Service::InitialRegistration)
        } else if code == "visa"@ {
            Some(Service::Visa)
        } else if code == "renewal_of_registration"@ {
            Some(Service::RenewalOfRegistration)
        } else if code == "renewal_of_visa"@ {
            Some(Service::RenewalOfVisa)
        } else if code == "all"@ {
            Some(Service::All)
        } else {
            None
        }
    }

    /// Whether the service must be booked within the deadline that follows
    /// the user's arrival.
    pub fn has_deadline(&self) -> (r: bool)
        ensures
            r == self.has_deadline_spec(),
    {
        match self {
            Service::InitialRegistration | Service::Visa | Service::All => true,
            _ => false,
        }
    }

    /// Every service, in the order in which they are offered.
    pub fn all() -> (r: Vec<Service>)
        ensures
            r@ == seq![
                Service::InitialRegistration,
                Service::Visa,
                Service::RenewalOfRegistration,
                Service::RenewalOfVisa,
                Service::All,
            ],
    {
        let mut all: Vec<Service> = Vec::new();
        all.push(Service::InitialRegistration);
        all.push(Service::Visa);
        all.push(Service::RenewalOfRegistration);
        all.push(Service::RenewalOfVisa);
        all.push(Service::All);
        all
    }

    /// The word by which the service is stored.
    pub fn code(&self) -> (r: &'static str)
        ensures
            r@ == self.code_spec(),
    {
        match self {
            Service::InitialRegistration => "initial_registration",
            Service::Visa => "visa",
            Service::RenewalOfRegistration => "renewal_of_registration",
            Service::RenewalOfVisa => "renewal_of_visa",
            Service::All => "all",
        }
    }

    /// The service that is stored as `code`.
    ///
    /// Fails with `InvalidValue`, whose text ends in `code`, where no service
    /// is stored under that word.
    pub fn from_code(code: &str) -> (r: Result<Service, Error>)
        ensures
            match Self::of_code(code@) {
                Some(s) => r == Ok::<Service, Error>(s),
                None => r matches Err(Error::InvalidValue(text)) && text@
                    == "invalid Service: expected one of ['initial_registration', 'visa', 'insurance', 'visa_and_insurance', 'renewal_of_registration', 'renewal_of_visa', 'all'], got "@
                    + code@,
            },
    {
        if same_text(code, "initial_registration") {
            Ok(Service::InitialRegistration)
        } else if same_text(code, "visa") {
            Ok(Service::Visa)
        } else if same_text(code, "renewal_of_registration") {
            Ok(Service::RenewalOfRegistration)
        } else if same_text(code, "renewal_of_visa") {
            Ok(Service::RenewalOfVisa)
        } else if same_text(code, "all") {
            Ok(Service::All)
        } else {
            Err(
                Error::InvalidValue(
                    String::from_str(
                        "invalid Service: expected one of ['initial_registration', 'visa', 'insurance', 'visa_and_insurance', 'renewal_of_registration', 'renewal_of_visa', 'all'], got ",
                    ).concat(code),
                ),
            )
        }
    }
}

} // verus!
