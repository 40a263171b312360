use crate::domain::models::slot::Slot;
use crate::domain::services::slots_factory::{
    chronological_on, empty_slots_over, working_only, SlotsFactory,
};
use crate::domain::services::working_hours_policy::WorkingHoursPolicy;
use crate::time::Date;
use crate::usecases::dto::FreeSlotDTO;
use crate::usecases::merge::{has_free_seat, kept};
use vstd::prelude::*;

verus! {

/// Lists the slots of a day that can still be booked.
pub struct FreeSlotsUseCase<F, W> {
    pub(crate) factory: F,
    pub(crate) policy: W,
}

impl<F: SlotsFactory, W: WorkingHoursPolicy> FreeSlotsUseCase<F, W> {
    /// The factory that makes the slots.
    pub open(crate) spec fn factory_spec(&self) -> F {
        self.factory
    }

    /// The policy that sets the working hours.
    pub open(crate) spec fn policy_spec(&self) -> W {
        self.policy
    }

    /// A listing of the slots that `factory` makes under `policy`.
    pub fn new(factory: F, policy: W) -> (r: Self)
        ensures
            r.factory_spec() == factory,
            r.policy_spec() == policy,
    {
        Self { factory, policy }
    }

    /// The empty slots of the day `date`, for the store to put its
    /// reservations into: they lie on that day and follow one another in
    /// time.
    pub fn templates(&self, date: Date) -> (slots: Vec<Slot>)
        ensures
            empty_slots_over(
                slots@,
                working_only(&self.policy_spec(), self.factory_spec().candidates(date)),
                self.factory_spec().capacity(),
            ),
            chronological_on(slots@, date),
    {
        self.factory.create_all(date, &self.policy)
    }

    /// The bounds of those of `slots`, the day's slots with their
    /// reservations, that still have a free seat, in their order.
    pub fn free_slots(&self, slots: &Vec<Slot>) -> (r: Vec<FreeSlotDTO>)
        ensures
            r@.len() == kept(slots@, has_free_seat()).len(),
            forall|i: int|
                0 <= i < r@.len() ==> (#[trigger] r@[i]).shows(kept(slots@, has_free_seat())[i]@),
    {
        let mut out: Vec<FreeSlotDTO> = Vec::new();
        let mut i: usize = 0;
        while i < slots.len()
            invariant
                i <= slots@.len(),
                out@.len() == kept(slots@.take(i as int), has_free_seat()).len(),
                forall|k: int|
                    0 <= k < out@.len() ==> (#[trigger] out@[k]).shows(
                        kept(slots@.take(i as int), has_free_seat())[k]@,
                    ),
            decreases slots@.len() - i,
        {
            proof {
                assert(slots@.take(i + 1).drop_last() =~= slots@.take(i as int));
            }
            if slots[i].is_available() {
                out.push(FreeSlotDTO::from_slot(&slots[i]));
            }
            i += 1;
        }
        proof {
            assert(slots@.take(i as int) =~= slots@);
        }
        out
    }
}

} // verus!
