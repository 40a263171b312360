use crate::domain::models::citizenship::Citizenship;
use crate::domain::models::reservation::Reservation;
use crate::domain::models::service::Service;
use crate::domain::models::slot::{Slot, SlotView};
use crate::domain::models::user::{OnlyCyrillic, OnlyLatin, User, UserID, Username};
use crate::time::{Date, Instant};
use vstd::prelude::*;

verus! {

/// A user, as callers see one.
#[derive(Debug, PartialEq)]
pub struct UserDTO {
    pub id: UserID,
    pub username: Username,
    pub full_name_lat: OnlyLatin,
    pub full_name_cyr: OnlyCyrillic,
    pub citizenship: Citizenship,
    pub arrival_date: Date,
}

/// A slot that can still be booked: when it starts and when it ends.
#[derive(Debug, Clone, Copy, PartialEq, Eq, Structural)]
pub struct FreeSlotDTO {
    pub start: Instant,
    pub end: Instant,
}

/// One reservation of a day, with its slot and what the report shows of its
/// user.
#[derive(Debug, PartialEq)]
pub struct ReservationDTO {
    pub slot_start: Instant,
    pub slot_end: Instant,
    pub service: Service,
    pub username: String,
    pub user_name_lat: String,
    pub user_name_cyr: String,
    pub citizenship: Citizenship,
    pub arrival_date: Date,
}

impl UserDTO {
    /// Whether `self` shows `user`, field by field.
    pub open spec fn shows(&self, user: User) -> bool {
        &&& self.id == user.id_spec()
        &&& self.username == user.username_spec()
        &&& self.full_name_lat == user.full_name_lat_spec()
        &&& self.full_name_cyr == user.full_name_cyr_spec()
        &&& self.citizenship == user.citizenship_spec()
        &&& self.arrival_date == user.arrival_date_spec()
    }

    /// What callers see of `user`.
    pub fn from_user(user: &User) -> (r: UserDTO)
        ensures
            r.shows(*user),
    {
        UserDTO {
            id: user.id(),
            username: user.username().clone(),
            full_name_lat: user.full_name_lat().clone(),
            full_name_cyr: user.full_name_cyr().clone(),
            citizenship: user.citizenship().clone(),
            arrival_date: *user.arrival_date(),
        }
    }
}

impl FreeSlotDTO {
    /// Whether `self` gives the bounds of `slot`.
    pub open spec fn shows(&self, slot: SlotView) -> bool {
        self.start == slot.interval.start_spec() && self.end == slot.interval.end_spec()
    }

    /// The bounds of `slot`.
    pub fn from_slot(slot: &Slot) -> (r: FreeSlotDTO)
        ensures
            r.shows(slot@),
    {
        FreeSlotDTO { start: slot.start(), end: *slot.interval().end() }
    }
}

impl ReservationDTO {
    /// Whether `self` is the row of the reservation `reservation` in `slot`.
    pub open spec fn shows(&self, slot: SlotView, reservation: Reservation) -> bool {
        &&& self.slot_start == slot.interval.start_spec()
        &&& self.slot_end == slot.interval.end_spec()
        &&& self.service == reservation.service_spec()
        &&& self.username@ == reservation.by_spec().username_spec()@
        &&& self.user_name_lat@ == reservation.by_spec().full_name_lat_spec()@
        &&& self.user_name_cyr@ == reservation.by_spec().full_name_cyr_spec()@
        &&& self.citizenship == reservation.by_spec().citizenship_spec()
        &&& self.arrival_date == reservation.by_spec().arrival_date_spec()
    }

    /// The row of the reservation `reservation` in `slot`.
    pub fn from_reservation(slot: &Slot, reservation: &Reservation) -> (r: ReservationDTO)
        ensures
            r.shows(slot@, *reservation),
    {
        let by: &User = reservation.by();
        ReservationDTO {
            slot_start: slot.start(),
            slot_end: *slot.interval().end(),
            service: *reservation.service(),
            username: by.username().as_str().to_owned(),
            user_name_lat: by.full_name_lat().as_str().to_owned(),
            user_name_cyr: by.full_name_cyr().as_str().to_owned(),
            citizenship: by.citizenship().clone(),
            arrival_date: *by.arrival_date(),
        }
    }
}

} // verus!
