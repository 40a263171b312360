use crate::domain::models::user::UserID;
use crate::numerals::{decimal, decimal_text};
use vstd::prelude::*;
use vstd::string::StringExecFns;

verus! {

/// What the scheduling rules refuse, and why.
#[derive(Debug, PartialEq)]
pub enum Error {
    /// A value that does not have the demanded form; the text says which.
    InvalidValue(String),
    /// Bounds that do not make an interval within one day; the text says why.
    InvalidInterval(String),
    /// The slot already holds as many reservations as it has seats.
    MaxCapacityExceeded(usize),
    /// No user with this identity is known.
    UserNotFound(UserID),
    /// The user holds no reservation in the slot.
    UserNotReserved(UserID),
    /// No slot that can still be booked starts at the requested time.
    SlotNotFoundError,
    /// The user already holds a reservation in the slot.
    SlotAlreadyReserved(UserID),
    /// A failure of the store, in its own words.
    Other(String),
}

impl Error {
    /// What the error says, in words.
    pub open spec fn message_spec(&self) -> Seq<char> {
        match self {
            Error::InvalidValue(text) => "invalid value: "@ + text@,
            Error::InvalidInterval(text) => "invalid interval: "@ + text@,
            Error::MaxCapacityExceeded(max_size) => "max capacity="@ + decimal_text(
                *max_size as int,
            ) + " exceeded"@,
            Error::UserNotFound(id) => "student not found: "@ + decimal_text(id@),
            Error::UserNotReserved(id) => "user has not reserved slot: "@ + decimal_text(id@),
            Error::SlotNotFoundError => "slot not found"@,
            Error::SlotAlreadyReserved(_) => "slot already reserved by user"@,
            Error::Other(text) => text@,
        }
    }

    /// What the error says, in words.
    pub fn message(&self) -> (r: String)
        ensures
            r@ == self.message_spec(),
    {
        match self {
            Error::InvalidValue(text) => String::from_str("invalid value: ").concat(text.as_str()),
            Error::InvalidInterval(text) => String::from_str("invalid interval: ").concat(
                text.as_str(),
            ),
            Error::MaxCapacityExceeded(max_size) => String::from_str("max capacity=").concat(
                decimal(*max_size as i128).as_str(),
            ).concat(" exceeded"),
            Error::UserNotFound(id) => String::from_str("student not found: ").concat(
                decimal(id.as_i64() as i128).as_str(),
            ),
            Error::UserNotReserved(id) => String::from_str("user has not reserved slot: ").concat(
                decimal(id.as_i64() as i128).as_str(),
            ),
            Error::SlotNotFoundError => String::from_str("slot not found"),
            Error::SlotAlreadyReserved(_) => String::from_str("slot already reserved by user"),
            Error::Other(text) => text.clone(),
        }
    }
}

impl Clone for Error {
    fn clone(&self) -> (r: Self)
        ensures
            r == *self,
    {
        match self {
            Error::InvalidValue(text) => Error::InvalidValue(text.clone()),
            Error::InvalidInterval(text) => Error::InvalidInterval(text.clone()),
            Error::MaxCapacityExceeded(max_size) => Error::MaxCapacityExceeded(*max_size),
            Error::UserNotFound(id) => Error::UserNotFound(*id),
            Error::UserNotReserved(id) => Error::UserNotReserved(*id),
            Error::SlotNotFoundError => Error::SlotNotFoundError,
            Error::SlotAlreadyReserved(id) => Error::SlotAlreadyReserved(*id),
            Error::Other(text) => Error::Other(text.clone()),
        }
    }
}

} // verus!
