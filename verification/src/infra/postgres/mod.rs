//! Users and reservations as the rows of the store hold them.

pub mod db;

pub use db::{slot_to_raw_reservations, RawReservation, RawReservationWithUser, RawUser};
