use crate::domain::models::service::Service;
use crate::domain::models::user::User;
use vstd::prelude::*;

verus! {

/// One seat of a slot, taken by a user for a service.
#[derive(Debug, PartialEq)]
pub struct Reservation {
    pub(crate) by: User,
    pub(crate) service: Service,
}

impl Clone for Reservation {
    fn clone(&self) -> (r: Self)
        ensures
            r == *self,
    {
        Reservation { by: self.by.clone(), service: self.service }
    }
}

impl Reservation {
    /// The user who holds the reservation.
    pub open(crate) spec fn by_spec(&self) -> User {
        self.by
    }

    /// The service that was asked for.
    pub open(crate) spec fn service_spec(&self) -> Service {
        self.service
    }

    /// The reservation of `by` for `service`.
    pub fn new(by: User, service: Service) -> (r: Reservation)
        ensures
            r.by_spec() == by,
            r.service_spec() == service,
    {
        Reservation { by, service }
    }

    /// The user who holds the reservation.
    pub fn by(&self) -> (r: &User)
        ensures
            *r == self.by_spec(),
    {
        &self.by
    }

    /// The service that was asked for.
    pub fn service(&self) -> (r: &Service)
        ensures
            *r == self.service_spec(),
    {
        &self.service
    }
}

} // verus!
