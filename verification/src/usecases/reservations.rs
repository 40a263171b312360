use crate::domain::models::reservation::Reservation;
use crate::domain::models::slot::{Slot, SlotView};
use crate::domain::services::slots_factory::{
    chronological_on, empty_slots_over, working_only, SlotsFactory,
};
use crate::domain::services::working_hours_policy::WorkingHoursPolicy;
use crate::time::Date;
use crate::usecases::dto::ReservationDTO;
use crate::usecases::merge::views;
use vstd::prelude::*;

verus! {

/// Lists the reservations of a day, for the report.
pub struct ReservationsUseCase<F, W> {
    pub(crate) factory: F,
    pub(crate) policy: W,
}

/// The first `n` reservations of `slot`, each with the slot.
pub open spec fn booked_in(slot: SlotView, n: int) -> Seq<(SlotView, Reservation)> {
    Seq::new(n as nat, |k: int| (slot, slot.reservations[k]))
}

/// The reservations of `slots`, each with its slot: slot after slot, and
/// within a slot in the order in which they were made.
pub open spec fn booked(slots: Seq<SlotView>) -> Seq<(SlotView, Reservation)>
    decreases slots.len(),
{
    if slots.len() == 0 {
        Seq::empty()
    } else {
        booked(slots.drop_last()) + booked_in(
            slots.last(),
            slots.last().reservations.len() as int,
        )
    }
}

/// Whether `rows` are the rows of `bookings`, one for one.
pub open spec fn rows_show(rows: Seq<ReservationDTO>, bookings: Seq<(SlotView, Reservation)>) -> bool {
    &&& rows.len() == bookings.len()
    &&& forall|k: int|
        0 <= k < rows.len() ==> (#[trigger] rows[k]).shows(bookings[k].0, bookings[k].1)
}

impl<F: SlotsFactory, W: WorkingHoursPolicy> ReservationsUseCase<F, W> {
    /// The factory that makes the slots.
    pub open(crate) spec fn factory_spec(&self) -> F {
        self.factory
    }

    /// The policy that sets the working hours.
    pub open(crate) spec fn policy_spec(&self) -> W {
        self.policy
    }

    /// A listing of reservations in the slots that `factory` makes under
    /// `policy`.
    pub fn new(factory: F, policy: W) -> (r: Self)
        ensures
            r.factory_spec() == factory,
            r.policy_spec() == policy,
    {
        Self { factory, policy }
    }

    /// The empty slots of the day `date`, for the store to put its
    /// reservations into: they lie on that day and follow one another in
    /// time.
    pub fn templates(&self, date: Date) -> (slots: Vec<Slot>)
        ensures
            empty_slots_over(
                slots@,
                working_only(&self.policy_spec(), self.factory_spec().candidates(date)),
                self.factory_spec().capacity(),
            ),
            chronological_on(slots@, date),
    {
        self.factory.create_all(date, &self.policy)
    }

    /// One row for each reservation in `slots`, the day's slots with their
    /// reservations: slot after slot, and within a slot in the order in
    /// which the reservations were made.
    pub fn reservations(&self, slots: &Vec<Slot>) -> (rows: Vec<ReservationDTO>)
        ensures
            rows_show(rows@, booked(views(slots@))),
    {
        let mut rows: Vec<ReservationDTO> = Vec::new();
        let mut i: usize = 0;
        while i < slots.len()
            invariant
                i <= slots@.len(),
                rows_show(rows@, booked(views(slots@).take(i as int))),
            decreases slots@.len() - i,
        {
            let slot: &Slot = &slots[i];
            let held: &[Reservation] = slot.reservations();
            let ghost earlier = booked(views(slots@).take(i as int));
            let mut j: usize = 0;
            proof {
                assert(earlier + booked_in(slot@, 0) =~= earlier);
            }
            while j < held.len()
                invariant
                    j <= held@.len(),
                    held@ == slot@.reservations,
                    earlier == booked(views(slots@).take(i as int)),
                    rows_show(rows@, earlier + booked_in(slot@, j as int)),
                decreases held@.len() - j,
            {
                let row: ReservationDTO = ReservationDTO::from_reservation(slot, &held[j]);
                rows.push(row);
                proof {
                    assert(earlier + booked_in(slot@, j + 1) =~= (earlier + booked_in(
                        slot@,
                        j as int,
                    )).push((slot@, held@[j as int])));
                }
                j += 1;
            }
            proof {
                let upto = views(slots@).take(i + 1);
                assert(upto.drop_last() =~= views(slots@).take(i as int));
                assert(upto.last() == slot@);
            }
            i += 1;
        }
        proof {
            assert(views(slots@).take(i as int) =~= views(slots@));
        }
        rows
    }
}

} // verus!
