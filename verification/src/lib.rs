//! Time-slot scheduling and reservation engine of a migration-registration
//! office: working hours become capacity-bounded slots, slots take and release
//! reservations, and the booking use cases decide what to ask of the store
//! and what to hand back to the caller.

pub mod numerals;
pub mod time;
pub mod domain;
pub mod usecases;
pub mod bot;
pub mod infra;
