use crate::domain::error::Error;
use crate::domain::models::citizenship::Citizenship;
use crate::domain::models::reservation::Reservation;
use crate::domain::models::service::Service;
use crate::domain::models::slot::{Slot, SlotView};
use crate::domain::models::user::{
    is_cyrillic_name, is_latin_name, OnlyCyrillic, OnlyLatin, User, UserID, Username,
};
use crate::time::{Date, Instant};
use crate::usecases::merge::StoredReservation;
use vstd::prelude::*;

verus! {

/// A user as a row of the store holds one: every particular as a number, a
/// text or a date.
#[derive(Debug, PartialEq)]
pub struct RawUser {
    pub id: i64,
    pub username: String,
    pub full_name_lat: String,
    pub full_name_cyr: String,
    pub citizenship: String,
    pub arrival_date: Date,
}

/// A reservation as a row of the store holds one.
#[derive(Debug, PartialEq)]
pub struct RawReservation {
    pub slot_start: Instant,
    pub service: String,
    pub user_id: i64,
}

/// A reservation as the store hands it out together with its user.
#[derive(Debug, PartialEq)]
pub struct RawReservationWithUser {
    pub slot_start: Instant,
    pub service: Service,
    pub user: RawUser,
}

impl RawUser {
    /// Whether `self` holds the particulars of `user`.
    pub open spec fn holds(&self, user: User) -> bool {
        &&& self.id == user.id_spec()@
        &&& self.username@ == user.username_spec()@
        &&& self.full_name_lat@ == user.full_name_lat_spec()@
        &&& self.full_name_cyr@ == user.full_name_cyr_spec()@
        &&& self.citizenship@ == user.citizenship_spec().name()
        &&& self.arrival_date == user.arrival_date_spec()
    }

    /// The row that holds `u`.
    pub fn from_user(u: &User) -> (r: RawUser)
        ensures
            r.holds(*u),
    {
        RawUser {
            id: u.id().as_i64(),
            username: u.username().as_str().to_owned(),
            full_name_lat: u.full_name_lat().as_str().to_owned(),
            full_name_cyr: u.full_name_cyr().as_str().to_owned(),
            citizenship: u.citizenship().as_str().to_owned(),
            arrival_date: *u.arrival_date(),
        }
    }

    /// The user that the row holds.
    ///
    /// Fails with `InvalidValue` where the name in the Latin script is none,
    /// else where the name in the Cyrillic script is none.
    pub fn try_into_user(self) -> (r: Result<User, Error>)
        ensures
            is_latin_name(self.full_name_lat@) && is_cyrillic_name(self.full_name_cyr@) ==> (
            r matches Ok(user) && self.holds(user) && match Citizenship::listed(self.citizenship@) {
                Some(c) => user.citizenship_spec() == c,
                None => user.citizenship_spec() is Other,
            }),
            !is_latin_name(self.full_name_lat@) ==> (r matches Err(Error::InvalidValue(text))
                && text@ == "OnlyLatin: got "@ + self.full_name_lat@),
            is_latin_name(self.full_name_lat@) && !is_cyrillic_name(self.full_name_cyr@) ==> (
            r matches Err(Error::InvalidValue(text)) && text@ == "OnlyCyrillic: got "@
                + self.full_name_cyr@),
    {
        let full_name_lat: OnlyLatin = match OnlyLatin::new(self.full_name_lat.as_str()) {
            Ok(name) => name,
            Err(e) => {
                return Err(e);
            },
        };
        let full_name_cyr: OnlyCyrillic = match OnlyCyrillic::new(self.full_name_cyr.as_str()) {
            Ok(name) => name,
            Err(e) => {
                return Err(e);
            },
        };
        Ok(
            User::new(
                UserID::new(self.id),
                Username::new(self.username.as_str()),
                full_name_lat,
                full_name_cyr,
                Citizenship::from_name(self.citizenship.as_str()),
                self.arrival_date,
            ),
        )
    }
}

impl RawReservationWithUser {
    /// The reservation with its user as the rules know them, ready to be put
    /// into its slot.
    ///
    /// Fails as `RawUser::try_into_user` does.
    pub fn try_unpack(self) -> (r: Result<StoredReservation, Error>)
        ensures
            is_latin_name(self.user.full_name_lat@) && is_cyrillic_name(self.user.full_name_cyr@)
                ==> (r matches Ok(stored) && stored.slot_start == self.slot_start
                && stored.service == self.service && self.user.holds(stored.user)),
            !(is_latin_name(self.user.full_name_lat@) && is_cyrillic_name(
                self.user.full_name_cyr@,
            )) ==> r matches Err(Error::InvalidValue(_)),
    {
        let slot_start: Instant = self.slot_start;
        let service: Service = self.service;
        match self.user.try_into_user() {
            Ok(user) => Ok(StoredReservation { slot_start, service, user }),
            Err(e) => Err(e),
        }
    }
}

impl RawReservation {
    /// Whether `self` is the row of `reservation` in a slot that starts at
    /// `slot_start`.
    pub open spec fn holds(&self, slot_start: Instant, reservation: Reservation) -> bool {
        &&& self.slot_start == slot_start
        &&& self.service@ == reservation.service_spec().code_spec()
        &&& self.user_id == reservation.by_spec().id_spec()@
    }
}

/// Whether `rows` are the rows of the reservations of `slot`, one for one.
pub open spec fn rows_hold(rows: Seq<RawReservation>, slot: SlotView) -> bool {
    &&& rows.len() == slot.reservations.len()
    &&& forall|i: int|
        0 <= i < rows.len() ==> (#[trigger] rows[i]).holds(
            slot.interval.start_spec(),
            slot.reservations[i],
        )
}

/// The rows under which the store keeps the reservations of `slot`, in their
/// order.
pub fn slot_to_raw_reservations(slot: &Slot) -> (rows: Vec<RawReservation>)
    ensures
        rows_hold(rows@, slot@),
{
    let held: &[Reservation] = slot.reservations();
    let mut rows: Vec<RawReservation> = Vec::new();
    let mut i: usize = 0;
    while i < held.len()
        invariant
            i <= held@.len(),
            held@ == slot@.reservations,
            rows@.len() == i,
            forall|k: int|
                0 <= k < i ==> (#[trigger] rows@[k]).holds(
                    slot@.interval.start_spec(),
                    slot@.reservations[k],
                ),
        decreases held@.len() - i,
    {
        rows.push(
            RawReservation {
                slot_start: slot.start(),
                service: held[i].service().code().to_owned(),
                user_id: held[i].by().id().as_i64(),
            },
        );
        i += 1;
    }
    rows
}

} // verus!
