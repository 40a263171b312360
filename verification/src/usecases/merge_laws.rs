use crate::domain::models::reservation::Reservation;
use crate::domain::models::slot::SlotView;
use crate::time::Instant;
use crate::usecases::merge::{lemma_position_of_start, merged, position_of_start, StoredReservation};
use vstd::prelude::*;

verus! {

/// The reservations that `stored` holds for the slot that starts at `start`,
/// in their order.
pub open(crate) spec fn stored_for(stored: Seq<StoredReservation>, start: Instant) -> Seq<
    Reservation,
>
    decreases stored.len(),
{
    if stored.len() == 0 {
        Seq::empty()
    } else {
        let earlier = stored_for(stored.drop_last(), start);
        if stored.last().slot_start == start {
            earlier.push(Reservation { by: stored.last().user, service: stored.last().service })
        } else {
            earlier
        }
    }
}

/// The slot `slot` with the reservations that `stored` holds for it after
/// its own.
pub open spec fn with_stored(slot: SlotView, stored: Seq<StoredReservation>) -> SlotView {
    slot.with_reservations(slot.reservations + stored_for(stored, slot.interval.start_spec()))
}

/// Whether no two of `slots` start at the same instant.
pub open spec fn distinct_starts(slots: Seq<SlotView>) -> bool {
    forall|i: int, j: int|
        0 <= i < j < slots.len() ==> (#[trigger] slots[i]).interval.start_spec() != (
        #[trigger] slots[j]).interval.start_spec()
}

/// What a slot holds with one stored reservation fewer: the same, or the
/// same but for the last reservation, which is that of the stored one left
/// out.
proof fn lemma_with_stored_step(slot: SlotView, stored: Seq<StoredReservation>)
    requires
        stored.len() > 0,
    ensures
        stored.last().slot_start != slot.interval.start_spec() ==> with_stored(slot, stored)
            == with_stored(slot, stored.drop_last()),
        stored.last().slot_start == slot.interval.start_spec() ==> with_stored(slot, stored)
            == with_stored(slot, stored.drop_last()).with_reservations(
            with_stored(slot, stored.drop_last()).reservations.push(
                Reservation { by: stored.last().user, service: stored.last().service },
            ),
        ),
{
    let start = slot.interval.start_spec();
    if stored.last().slot_start == start {
        let r = Reservation { by: stored.last().user, service: stored.last().service };
        assert(slot.reservations + stored_for(stored.drop_last(), start).push(r) =~= (
        slot.reservations + stored_for(stored.drop_last(), start)).push(r));
    }
}

/// Where no two slots start at the same instant, a merge that succeeds
/// leaves each slot over its interval and with its seats, holding after its
/// own reservations those that are stored for its start, in their order.
pub proof fn lemma_merged_holds_stored(slots: Seq<SlotView>, stored: Seq<StoredReservation>)
    requires
        distinct_starts(slots),
        merged(slots, stored) is Ok,
    ensures
        merged(slots, stored)->Ok_0.len() == slots.len(),
        forall|i: int|
            0 <= i < slots.len() ==> #[trigger] merged(slots, stored)->Ok_0[i] == with_stored(
                slots[i],
                stored,
            ),
    decreases stored.len(),
{
    if stored.len() == 0 {
        assert forall|i: int| 0 <= i < slots.len() implies #[trigger] slots[i] == with_stored(
            slots[i],
            stored,
        ) by {
            assert(slots[i].reservations + Seq::<Reservation>::empty() =~= slots[i].reservations);
        }
    } else {
        let last = stored.last();
        lemma_merged_holds_stored(slots, stored.drop_last());
        let earlier = merged(slots, stored.drop_last())->Ok_0;
        let out = merged(slots, stored)->Ok_0;
        lemma_position_of_start(earlier, last.slot_start);
        let at = position_of_start(earlier, last.slot_start);
        assert forall|i: int| 0 <= i < slots.len() implies #[trigger] out[i] == with_stored(
            slots[i],
            stored,
        ) by {
            lemma_with_stored_step(slots[i], stored);
            assert(earlier[i] == with_stored(slots[i], stored.drop_last()));
            if at < earlier.len() {
                assert(earlier[at] == with_stored(slots[at], stored.drop_last()));
                if i != at {
                    if i < at {
                        assert(slots[i].interval.start_spec() != slots[at].interval.start_spec());
                    } else {
                        assert(slots[at].interval.start_spec() != slots[i].interval.start_spec());
                    }
                }
            }
        }
    }
}

/// Where no two slots start at the same instant, a merge succeeds if every
/// slot can hold what is stored for it: its own reservations and those
/// stored for its start are together no more than its seats and belong to
/// different users.
pub proof fn lemma_merged_succeeds(slots: Seq<SlotView>, stored: Seq<StoredReservation>)
    requires
        distinct_starts(slots),
        forall|i: int| 0 <= i < slots.len() ==> (#[trigger] with_stored(slots[i], stored)).wf(),
    ensures
        merged(slots, stored) is Ok,
    decreases stored.len(),
{
    if stored.len() > 0 {
        let last = stored.last();
        assert forall|i: int| 0 <= i < slots.len() implies (#[trigger] with_stored(
            slots[i],
            stored.drop_last(),
        )).wf() by {
            lemma_with_stored_step(slots[i], stored);
            let full = with_stored(slots[i], stored);
            let fewer = with_stored(slots[i], stored.drop_last());
            assert(full.wf());
            assert forall|a: int, b: int| 0 <= a < b < fewer.reservations.len() implies fewer.user_at(
                a,
            ) != fewer.user_at(b) by {
                assert(full.user_at(a) != full.user_at(b));
            }
        }
        lemma_merged_succeeds(slots, stored.drop_last());
        lemma_merged_holds_stored(slots, stored.drop_last());
        let earlier = merged(slots, stored.drop_last())->Ok_0;
        lemma_position_of_start(earlier, last.slot_start);
        let at = position_of_start(earlier, last.slot_start);
        if at < earlier.len() {
            lemma_with_stored_step(slots[at], stored);
            let fewer = with_stored(slots[at], stored.drop_last());
            let full = with_stored(slots[at], stored);
            assert(earlier[at] == fewer);
            assert(full.wf());
            let n = fewer.reservations.len() as int;
            assert(full.user_at(n) == last.user.id_spec());
            if fewer.holds(last.user.id_spec()) {
                let k = choose|k: int|
                    0 <= k < fewer.reservations.len() && fewer.user_at(k) == last.user.id_spec();
                assert(full.user_at(k) != full.user_at(n));
            }
            assert(fewer.reserve(last.user, last.service) is Ok);
        }
    }
}

/// A merge that succeeds on slots that obey their limits leaves slots that
/// obey them.
pub proof fn lemma_merged_keeps_limits(slots: Seq<SlotView>, stored: Seq<StoredReservation>)
    requires
        forall|i: int| 0 <= i < slots.len() ==> (#[trigger] slots[i]).wf(),
        merged(slots, stored) matches Ok(_),
    ensures
        merged(slots, stored)->Ok_0.len() == slots.len(),
        forall|i: int| 0 <= i < slots.len() ==> (#[trigger] merged(slots, stored)->Ok_0[i]).wf(),
    decreases stored.len(),
{
    if stored.len() > 0 {
        let last = stored.last();
        lemma_merged_keeps_limits(slots, stored.drop_last());
        let earlier = merged(slots, stored.drop_last())->Ok_0;
        lemma_position_of_start(earlier, last.slot_start);
        let at = position_of_start(earlier, last.slot_start);
        let out = merged(slots, stored)->Ok_0;
        if at < earlier.len() {
            let before = earlier[at];
            let after = before.reserve(last.user, last.service)->Ok_0;
            assert(before.wf());
            assert forall|a: int, b: int| 0 <= a < b < after.reservations.len() implies after.user_at(
                a,
            ) != after.user_at(b) by {
                if b == before.reservations.len() {
                    assert(before.user_at(a) != last.user.id_spec());
                } else {
                    assert(before.user_at(a) != before.user_at(b));
                }
            }
            assert forall|i: int| 0 <= i < slots.len() implies (#[trigger] out[i]).wf() by {
                if i != at {
                    assert(out[i] == earlier[i]);
                }
            }
        }
    }
}

/// The refusal of a merge is one of the two with which a slot refuses a
/// seat.
pub proof fn lemma_merged_refusal(slots: Seq<SlotView>, stored: Seq<StoredReservation>)
    requires
        merged(slots, stored) is Err,
    ensures
        merged(slots, stored)->Err_0 is MaxCapacityExceeded || merged(
            slots,
            stored,
        )->Err_0 is SlotAlreadyReserved,
    decreases stored.len(),
{
    if stored.len() > 0 {
        if merged(slots, stored.drop_last()) is Err {
            lemma_merged_refusal(slots, stored.drop_last());
        }
    }
}

} // verus!
