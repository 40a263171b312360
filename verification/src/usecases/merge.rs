use crate::domain::error::Error;
use crate::domain::models::service::Service;
use crate::domain::models::slot::{Slot, SlotView};
use crate::domain::models::user::User;
use crate::time::Instant;
use vstd::prelude::*;

verus! {

/// A reservation as the store keeps it: the start of its slot, the service
/// and the user.
#[derive(Debug, PartialEq)]
pub struct StoredReservation {
    pub slot_start: Instant,
    pub service: Service,
    pub user: User,
}

/// The slots `slots` as plain values.
pub open spec fn views(slots: Seq<Slot>) -> Seq<SlotView> {
    slots.map_values(|slot: Slot| slot@)
}

/// The position of the first of `slots` that starts at `start`, or the
/// number of slots where none does.
pub open spec fn position_of_start(slots: Seq<SlotView>, start: Instant) -> int
    decreases slots.len(),
{
    if slots.len() == 0 {
        0
    } else if slots[0].interval.start_spec() == start {
        0
    } else {
        1 + position_of_start(slots.drop_first(), start)
    }
}

/// What becomes of `slots` when the stored reservation `stored` is put into
/// the first slot that starts when its slot does: a reservation whose slot is
/// not among them changes nothing, and one that its slot refuses ends the
/// merge with that refusal.
pub open spec fn placed(slots: Seq<SlotView>, stored: StoredReservation) -> Result<
    Seq<SlotView>,
    Error,
> {
    let at = position_of_start(slots, stored.slot_start);
    if at < slots.len() {
        match slots[at].reserve(stored.user, stored.service) {
            Ok(slot) => Ok(slots.update(at, slot)),
            Err(e) => Err(e),
        }
    } else {
        Ok(slots)
    }
}

/// What becomes of `slots` when the stored reservations `stored` are put
/// into them one after the other.
pub open spec fn merged(slots: Seq<SlotView>, stored: Seq<StoredReservation>) -> Result<
    Seq<SlotView>,
    Error,
>
    decreases stored.len(),
{
    if stored.len() == 0 {
        Ok(slots)
    } else {
        match merged(slots, stored.drop_last()) {
            Ok(earlier) => placed(earlier, stored.last()),
            Err(e) => Err(e),
        }
    }
}

/// Those of `slots` for which `keep` holds, in their order.
pub open spec fn kept(slots: Seq<Slot>, keep: spec_fn(SlotView) -> bool) -> Seq<Slot>
    decreases slots.len(),
{
    if slots.len() == 0 {
        Seq::empty()
    } else {
        let earlier = kept(slots.drop_last(), keep);
        if keep(slots.last()@) {
            earlier.push(slots.last())
        } else {
            earlier
        }
    }
}

/// Whether `first` stands in `slots` at a position before one of `second`.
pub open spec fn stands_before(slots: Seq<Slot>, first: Slot, second: Slot) -> bool {
    exists|i: int, j: int|
        0 <= i < j < slots.len() && #[trigger] slots[i] == first && #[trigger] slots[j] == second
}

/// The slots kept are exactly those for which `keep` holds, and they stay in
/// their order: of two kept slots, the one that is kept first also stands
/// first in `slots`.
pub proof fn lemma_kept(slots: Seq<Slot>, keep: spec_fn(SlotView) -> bool)
    ensures
        kept(slots, keep).len() <= slots.len(),
        forall|k: int, l: int|
            0 <= k < l < kept(slots, keep).len() ==> #[trigger] stands_before(
                slots,
                kept(slots, keep)[k],
                kept(slots, keep)[l],
            ),
        forall|k: int| 0 <= k < kept(slots, keep).len() ==> keep((#[trigger] kept(slots, keep)[k])@),
        forall|i: int|
            0 <= i < slots.len() && keep((#[trigger] slots[i])@) ==> kept(slots, keep).contains(
                slots[i],
            ),
        forall|k: int|
            0 <= k < kept(slots, keep).len() ==> slots.contains(#[trigger] kept(slots, keep)[k]),
    decreases slots.len(),
{
    if slots.len() > 0 {
        let earlier = slots.drop_last();
        lemma_kept(earlier, keep);
        let out = kept(slots, keep);
        assert forall|i: int| 0 <= i < slots.len() && keep((#[trigger] slots[i])@) implies out.contains(
            slots[i],
        ) by {
            if i < earlier.len() {
                assert(earlier[i] == slots[i]);
                let k = choose|k: int|
                    0 <= k < kept(earlier, keep).len() && kept(earlier, keep)[k] == earlier[i];
                assert(out[k] == slots[i]);
            } else {
                assert(out[out.len() - 1] == slots[i]);
            }
        }
        assert forall|k: int, l: int| 0 <= k < l < out.len() implies #[trigger] stands_before(
            slots,
            out[k],
            out[l],
        ) by {
            let before = kept(earlier, keep);
            if l < before.len() {
                assert(stands_before(earlier, before[k], before[l]));
                let (i, j) = choose|i: int, j: int|
                    0 <= i < j < earlier.len() && #[trigger] earlier[i] == before[k]
                        && #[trigger] earlier[j] == before[l];
                assert(slots[i] == out[k] && slots[j] == out[l]);
            } else {
                assert(earlier.contains(before[k]));
                let i = choose|i: int| 0 <= i < earlier.len() && earlier[i] == before[k];
                let j = slots.len() - 1;
                assert(slots[i] == out[k] && slots[j] == out[l]);
            }
        }
        assert forall|k: int| 0 <= k < out.len() implies slots.contains(#[trigger] out[k]) by {
            if k < kept(earlier, keep).len() {
                let i = choose|i: int|
                    0 <= i < earlier.len() && earlier[i] == kept(earlier, keep)[k];
                assert(slots[i] == out[k]);
            } else {
                assert(slots[slots.len() - 1] == out[k]);
            }
        }
    }
}

/// Slots that follow one another in time still do so when only some of
/// them are kept.
pub proof fn lemma_kept_ascending(slots: Seq<Slot>, keep: spec_fn(SlotView) -> bool)
    requires
        forall|i: int, j: int|
            0 <= i < j < slots.len() ==> (#[trigger] slots[i])@.interval.start_spec()@ < (
            #[trigger] slots[j])@.interval.start_spec()@,
    ensures
        forall|k: int, l: int|
            0 <= k < l < kept(slots, keep).len() ==> (#[trigger] kept(
                slots,
                keep,
            )[k])@.interval.start_spec()@ < (#[trigger] kept(slots, keep)[l])@.interval.start_spec()@,
{
    lemma_kept(slots, keep);
    let out = kept(slots, keep);
    assert forall|k: int, l: int| 0 <= k < l < out.len() implies (
    #[trigger] out[k])@.interval.start_spec()@ < (#[trigger] out[l])@.interval.start_spec()@ by {
        assert(stands_before(slots, out[k], out[l]));
        let (i, j) = choose|i: int, j: int|
            0 <= i < j < slots.len() && #[trigger] slots[i] == out[k] && #[trigger] slots[j]
                == out[l];
        assert(slots[i]@.interval.start_spec()@ < slots[j]@.interval.start_spec()@);
    }
}

/// Whether a slot still has a free seat.
pub open spec fn has_free_seat() -> spec_fn(SlotView) -> bool {
    |slot: SlotView| !slot.is_full()
}

/// Whether a slot holds a reservation.
pub open spec fn has_reservation() -> spec_fn(SlotView) -> bool {
    |slot: SlotView| slot.reservations.len() > 0
}

fn find_start(slots: &Vec<Slot>, start: Instant) -> (r: usize)
    ensures
        r == position_of_start(views(slots@), start),
        r <= slots@.len(),
        r < slots@.len() ==> slots@[r as int]@.interval.start_spec() == start,
{
    let mut i: usize = 0;
    proof {
        assert(views(slots@).skip(0) =~= views(slots@));
    }
    while i < slots.len()
        invariant
            i <= slots@.len(),
            position_of_start(views(slots@), start) == i + position_of_start(
                views(slots@).skip(i as int),
                start,
            ),
        decreases slots@.len() - i,
    {
        proof {
            let rest = views(slots@).skip(i as int);
            assert(rest[0] == slots@[i as int]@);
            assert(rest.drop_first() =~= views(slots@).skip(i + 1));
        }
        if slots[i].start() == start {
            return i;
        }
        i += 1;
    }
    proof {
        assert(views(slots@).skip(i as int).len() == 0);
    }
    i
}

/// Puts the stored reservations `stored`, in their order, into the slots
/// `templates`: each into the first slot that starts when its slot does.
///
/// A reservation whose slot is not among the templates is passed over. The
/// merge fails with the refusal of the first reservation that its slot does
/// not take: `MaxCapacityExceeded` or `SlotAlreadyReserved`.
pub fn merge_reservations(templates: Vec<Slot>, stored: &Vec<StoredReservation>) -> (r: Result<
    Vec<Slot>,
    Error,
>)
    ensures
        match merged(views(templates@), stored@) {
            Ok(slots) => r matches Ok(out) && views(out@) == slots,
            Err(e) => r == Err::<Vec<Slot>, Error>(e),
        },
{
    let mut slots: Vec<Slot> = templates;
    let mut i: usize = 0;
    while i < stored.len()
        invariant
            i <= stored@.len(),
            merged(views(templates@), stored@.take(i as int)) == Ok::<Seq<SlotView>, Error>(
                views(slots@),
            ),
        decreases stored@.len() - i,
    {
        proof {
            assert(stored@.take(i + 1).drop_last() =~= stored@.take(i as int));
            assert(stored@.take(i + 1).last() == stored@[i as int]);
        }
        let at: usize = find_start(&slots, stored[i].slot_start);
        if at < slots.len() {
            let ghost before: Seq<Slot> = slots@;
            let mut slot: Slot = slots.remove(at);
            match slot.reserve(stored[i].user.clone(), stored[i].service) {
                Ok(()) => {
                    slots.insert(at, slot);
                    proof {
                        assert(views(slots@) =~= views(before).update(at as int, slot@));
                    }
                },
                Err(e) => {
                    proof {
                        lemma_merged_fails(views(templates@), stored@, i + 1);
                    }
                    return Err(e);
                },
            }
        }
        i += 1;
    }
    proof {
        assert(stored@.take(i as int) =~= stored@);
    }
    Ok(slots)
}

/// A merge that fails on the first `n` stored reservations fails in the same
/// way on all of them.
pub proof fn lemma_merged_fails(slots: Seq<SlotView>, stored: Seq<StoredReservation>, n: int)
    requires
        0 <= n <= stored.len(),
        merged(slots, stored.take(n)) is Err,
    ensures
        merged(slots, stored) == merged(slots, stored.take(n)),
    decreases stored.len(),
{
    if n < stored.len() {
        assert(stored.drop_last().take(n) =~= stored.take(n));
        lemma_merged_fails(slots, stored.drop_last(), n);
    } else {
        assert(stored.take(n) =~= stored);
    }
}

/// A merge that succeeds leaves as many slots as it was given, each over
/// the interval and with the seats that it had.
pub proof fn lemma_merged_keeps_slots(slots: Seq<SlotView>, stored: Seq<StoredReservation>)
    requires
        merged(slots, stored) is Ok,
    ensures
        merged(slots, stored)->Ok_0.len() == slots.len(),
        forall|i: int|
            0 <= i < slots.len() ==> (#[trigger] merged(slots, stored)->Ok_0[i]).interval
                == slots[i].interval && merged(slots, stored)->Ok_0[i].max_size
                == slots[i].max_size,
    decreases stored.len(),
{
    if stored.len() > 0 {
        lemma_merged_keeps_slots(slots, stored.drop_last());
        let earlier = merged(slots, stored.drop_last())->Ok_0;
        lemma_position_of_start(earlier, stored.last().slot_start);
    }
}

/// The position of the first slot that starts at `start` is a position among
/// the slots, or their number.
pub proof fn lemma_position_of_start(slots: Seq<SlotView>, start: Instant)
    ensures
        0 <= position_of_start(slots, start) <= slots.len(),
        position_of_start(slots, start) < slots.len() ==> slots[position_of_start(
            slots,
            start,
        )].interval.start_spec() == start,
        forall|i: int|
            0 <= i < position_of_start(slots, start) ==> (#[trigger] slots[i]).interval.start_spec()
                != start,
    decreases slots.len(),
{
    if slots.len() > 0 && slots[0].interval.start_spec() != start {
        lemma_position_of_start(slots.drop_first(), start);
        assert forall|i: int| 0 <= i < position_of_start(slots, start) implies (
        #[trigger] slots[i]).interval.start_spec() != start by {
            if i > 0 {
                assert(slots.drop_first()[i - 1] == slots[i]);
            }
        }
    }
}

/// Puts into the slot `template` those of the stored reservations `stored`
/// whose slot starts when it does, in their order.
///
/// Fails with the refusal of the first of them that the slot does not take:
/// `MaxCapacityExceeded` or `SlotAlreadyReserved`.
pub fn reserved_slot(template: Slot, stored: &Vec<StoredReservation>) -> (r: Result<Slot, Error>)
    ensures
        match merged(seq![template@], stored@) {
            Ok(slots) => r matches Ok(out) && slots.len() == 1 && out@ == slots[0],
            Err(e) => r == Err::<Slot, Error>(e),
        },
{
    let mut templates: Vec<Slot> = Vec::new();
    templates.push(template);
    proof {
        assert(views(templates@) =~= seq![template@]);
    }
    match merge_reservations(templates, stored) {
        Ok(slots) => {
            proof {
                lemma_merged_keeps_slots(seq![template@], stored@);
            }
            let mut slots: Vec<Slot> = slots;
            match slots.pop() {
                Some(slot) => Ok(slot),
                None => Err(Error::SlotNotFoundError),
            }
        },
        Err(e) => Err(e),
    }
}

/// Those of `slots` that still have a free seat, in their order.
pub fn available_slots(slots: Vec<Slot>) -> (r: Vec<Slot>)
    ensures
        r@ == kept(slots@, has_free_seat()),
{
    let mut out: Vec<Slot> = Vec::new();
    let ghost all: Seq<Slot> = slots@;
    for slot in it: slots.into_iter()
        invariant
            it.seq() == all,
            out@ == kept(all.take(it.index()), has_free_seat()),
    {
        proof {
            assert(all.take(it.index() + 1).drop_last() =~= all.take(it.index()));
        }
        if slot.is_available() {
            out.push(slot);
        }
    }
    proof {
        assert(all.take(all.len() as int) =~= all);
    }
    out
}

/// Those of `slots` that hold a reservation, in their order.
pub fn reserved_slots(slots: Vec<Slot>) -> (r: Vec<Slot>)
    ensures
        r@ == kept(slots@, has_reservation()),
{
    let mut out: Vec<Slot> = Vec::new();
    let ghost all: Seq<Slot> = slots@;
    for slot in it: slots.into_iter()
        invariant
            it.seq() == all,
            out@ == kept(all.take(it.index()), has_reservation()),
    {
        proof {
            assert(all.take(it.index() + 1).drop_last() =~= all.take(it.index()));
        }
        if !slot.is_empty() {
            out.push(slot);
        }
    }
    proof {
        assert(all.take(all.len() as int) =~= all);
    }
    out
}

} // verus!
