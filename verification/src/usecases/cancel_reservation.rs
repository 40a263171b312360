use crate::domain::error::Error;
use crate::domain::models::slot::{Slot, SlotView};
use crate::domain::models::user::UserID;
use crate::domain::services::slots_factory::{empty_slot, SlotsFactory};
use crate::time::Instant;
use vstd::prelude::*;

verus! {

/// Gives back the seat that a user holds in the slot that starts at a given
/// time.
pub struct CancelReservationUseCase<F> {
    pub(crate) factory: F,
}

impl<F: SlotsFactory> CancelReservationUseCase<F> {
    /// The factory that makes the slots.
    pub open(crate) spec fn factory_spec(&self) -> F {
        self.factory
    }

    /// A cancelling of seats in the slots that `factory` makes.
    pub fn new(factory: F) -> (r: Self)
        ensures
            r.factory_spec() == factory,
    {
        Self { factory }
    }

    /// The empty slot that starts at `time`, for the store to put its
    /// reservations into.
    ///
    /// Fails with `UserNotReserved(user_id)` where no slot can start at
    /// `time`: nobody holds a seat in a slot that does not exist.
    pub fn template(&self, user_id: UserID, time: Instant) -> (r: Result<Slot, Error>)
        ensures
            match self.factory_spec().template(time) {
                Some(interval) => r matches Ok(slot) && slot@ == empty_slot(
                    interval,
                    self.factory_spec().capacity(),
                ) && interval.start_spec() == time,
                None => r == Err::<Slot, Error>(Error::UserNotReserved(user_id)),
            },
    {
        match self.factory.create(time) {
            Ok(slot) => Ok(slot),
            Err(_) => Err(Error::UserNotReserved(user_id)),
        }
    }

    /// Removes the reservation of the user `user_id` from `slot`, the slot
    /// with its reservations, and hands back the slot for the store to keep.
    ///
    /// Fails with `UserNotReserved(user_id)` where the user holds no seat in
    /// it.
    pub fn cancel_reservation(&self, user_id: UserID, slot: Slot) -> (r: Result<Slot, Error>)
        ensures
            match slot@.cancel(user_id) {
                Ok(after) => r matches Ok(out) && out@ == after && out.is_valid(),
                Err(e) => r == Err::<Slot, Error>(e),
            },
    {
        let mut slot: Slot = slot;
        match slot.cancel(user_id) {
            Ok(()) => {
                proof {
                    use_type_invariant(&slot);
                }
                Ok(slot)
            },
            Err(e) => Err(e),
        }
    }
}

} // verus!
