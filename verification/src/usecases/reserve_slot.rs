use crate::domain::error::Error;
use crate::domain::models::service::Service;
use crate::domain::models::slot::{Slot, SlotView};
use crate::domain::models::user::User;
use crate::domain::services::slots_factory::{
    chronological_on, empty_slots_over, working_only, SlotsFactory,
};
use crate::domain::services::working_hours_policy::WorkingHoursPolicy;
use crate::time::Instant;
use crate::usecases::merge::views;
use vstd::prelude::*;

verus! {

/// Books a seat for a user in the slot that starts at a given time.
pub struct ReserveSlotUseCase<F, W> {
    pub(crate) factory: F,
    pub(crate) policy: W,
}

/// Whether `slot` starts at `time` and still has a free seat.
pub open spec fn bookable_at(slot: SlotView, time: Instant) -> bool {
    slot.interval.start_spec() == time && !slot.is_full()
}

/// The position of the first of `slots` that is bookable at `time`, or the
/// number of slots where none is.
pub open spec fn position_bookable(slots: Seq<SlotView>, time: Instant) -> int
    decreases slots.len(),
{
    if slots.len() == 0 {
        0
    } else if bookable_at(slots[0], time) {
        0
    } else {
        1 + position_bookable(slots.drop_first(), time)
    }
}

/// What a request of `user` for `service` at `time` comes to, given the day's
/// slots with their reservations: the slot to be stored, with the new
/// reservation after the others, or the refusal.
pub open spec fn reserved(slots: Seq<SlotView>, user: User, time: Instant, service: Service) -> Result<
    SlotView,
    Error,
> {
    let at = position_bookable(slots, time);
    if at < slots.len() {
        slots[at].reserve(user, service)
    } else {
        Err(Error::SlotNotFoundError)
    }
}

/// The position of the first slot that is bookable at `time` is a position
/// of such a slot with none before it, or the number of slots where there is
/// none.
pub proof fn lemma_position_bookable(slots: Seq<SlotView>, time: Instant)
    ensures
        0 <= position_bookable(slots, time) <= slots.len(),
        position_bookable(slots, time) < slots.len() ==> bookable_at(
            slots[position_bookable(slots, time)],
            time,
        ),
        forall|i: int|
            0 <= i < position_bookable(slots, time) ==> !bookable_at(#[trigger] slots[i], time),
    decreases slots.len(),
{
    if slots.len() > 0 && !bookable_at(slots[0], time) {
        lemma_position_bookable(slots.drop_first(), time);
        assert forall|i: int| 0 <= i < position_bookable(slots, time) implies !bookable_at(
            #[trigger] slots[i],
            time,
        ) by {
            if i > 0 {
                assert(slots.drop_first()[i - 1] == slots[i]);
            }
        }
    }
}

impl<F: SlotsFactory, W: WorkingHoursPolicy> ReserveSlotUseCase<F, W> {
    /// The factory that makes the slots.
    pub open(crate) spec fn factory_spec(&self) -> F {
        self.factory
    }

    /// The policy that sets the working hours.
    pub open(crate) spec fn policy_spec(&self) -> W {
        self.policy
    }

    /// A booking of the slots that `factory` makes under `policy`.
    pub fn new(factory: F, policy: W) -> (r: Self)
        ensures
            r.factory_spec() == factory,
            r.policy_spec() == policy,
    {
        Self { factory, policy }
    }

    /// The empty slots of the day of `time`, for the store to put its
    /// reservations into: they lie on that day and follow one another in
    /// time.
    pub fn templates(&self, time: Instant) -> (slots: Vec<Slot>)
        ensures
            empty_slots_over(
                slots@,
                working_only(&self.policy_spec(), self.factory_spec().candidates(time.date_spec())),
                self.factory_spec().capacity(),
            ),
            chronological_on(slots@, time.date_spec()),
    {
        self.factory.create_all(time.date(), &self.policy)
    }

    /// Books a seat for `user`, who asks for `service`, in the first of
    /// `available`, the day's slots with their reservations, that starts at
    /// `time` and has a free seat, and hands back that slot for the store to
    /// keep.
    ///
    /// Fails with `SlotNotFoundError` where no such slot is among them, and
    /// with `SlotAlreadyReserved` where the user already holds a seat in it.
    pub fn reserve_slot(&self, user: User, time: Instant, service: Service, available: Vec<Slot>) -> (r:
        Result<Slot, Error>)
        ensures
            match reserved(views(available@), user, time, service) {
                Ok(slot) => r matches Ok(out) && out@ == slot && out.is_valid(),
                Err(e) => r == Err::<Slot, Error>(e),
            },
            !(exists|i: int|
                0 <= i < available@.len() && bookable_at((#[trigger] available@[i])@, time)) ==> r
                == Err::<Slot, Error>(Error::SlotNotFoundError),
    {
        let mut slots: Vec<Slot> = available;
        let mut i: usize = 0;
        proof {
            assert(views(slots@).skip(0) =~= views(slots@));
        }
        while i < slots.len()
            invariant
                i <= slots@.len(),
                slots@ == available@,
                position_bookable(views(slots@), time) == i + position_bookable(
                    views(slots@).skip(i as int),
                    time,
                ),
                forall|k: int| 0 <= k < i ==> !bookable_at((#[trigger] slots@[k])@, time),
            decreases slots@.len() - i,
        {
            proof {
                let rest = views(slots@).skip(i as int);
                assert(rest[0] == slots@[i as int]@);
                assert(rest.drop_first() =~= views(slots@).skip(i + 1));
            }
            if slots[i].start() == time && slots[i].is_available() {
                let mut slot: Slot = slots.swap_remove(i);
                return match slot.reserve(user, service) {
                    Ok(()) => {
                        proof {
                            use_type_invariant(&slot);
                        }
                        Ok(slot)
                    },
                    Err(e) => Err(e),
                };
            }
            i += 1;
        }
        proof {
            assert(views(slots@).skip(i as int).len() == 0);
        }
        Err(Error::SlotNotFoundError)
    }
}

} // verus!
