//! Ranges, intervals, users, reservations and slots.

pub mod citizenship;
pub mod closed_range;
pub mod interval;
pub mod naive_time_interval;
pub mod reservation;
pub mod service;
pub mod slot;
pub mod slot_laws;
pub mod text;
pub mod user;

pub use citizenship::Citizenship;
pub use closed_range::{ClosedRange, ClosedRangeIter};
pub use interval::Interval;
pub use naive_time_interval::NaiveTimeInterval;
pub use service::Service;
pub use slot::{Slot, SlotView};
pub use reservation::Reservation;
pub use user::{OnlyCyrillic, OnlyLatin, User, UserID, Username};
