//! What a caller may ask of the schedule. Each use case decides; asking the
//! store and the clock is left to the caller, who hands their answers in.

pub mod cancel_reservation;
pub mod check_admin;
pub mod check_deadline;
pub mod check_registered;
pub mod days_with_free_slots;
pub mod dto;
pub mod free_slots;
pub mod get_user;
pub mod merge;
pub mod merge_laws;
pub mod register_user;
pub mod reservations;
pub mod reserve_slot;
pub mod update_user;

pub use cancel_reservation::CancelReservationUseCase;
pub use check_deadline::{CheckDeadlineUseCase, DeadlineCheck};
pub use days_with_free_slots::{DaysScan, DaysStep, DaysWithFreeSlotsUseCase};
pub use dto::{FreeSlotDTO, ReservationDTO, UserDTO};
pub use free_slots::FreeSlotsUseCase;
pub use merge::{
    available_slots, merge_reservations, reserved_slot, reserved_slots, StoredReservation,
};
pub use reservations::ReservationsUseCase;
pub use reserve_slot::ReserveSlotUseCase;
pub use check_admin::CheckAdminUseCase;
pub use check_registered::CheckRegisteredUseCase;
pub use get_user::GetUserUseCase;
pub use register_user::{RegisterUserRequest, RegisterUserUseCase};
pub use update_user::UpdateUserUseCase;
