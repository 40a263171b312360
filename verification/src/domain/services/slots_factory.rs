use crate::domain::error::Error;
use crate::domain::models::interval::{bounds_interval, refusal_of_span, Interval};
use crate::domain::models::reservation::Reservation;
use crate::domain::models::slot::{Slot, SlotView};
use crate::domain::services::working_hours_policy::WorkingHoursPolicy;
use crate::time::{Date, Duration, Instant, TimeOfDay};
use vstd::prelude::*;

verus! {

/// Those of `intervals` throughout which the office works under `wp`, in
/// their order.
pub open spec fn working_only<W: WorkingHoursPolicy>(wp: &W, intervals: Seq<Interval>) -> Seq<
    Interval,
>
    decreases intervals.len(),
{
    if intervals.len() == 0 {
        Seq::empty()
    } else {
        let earlier = working_only(wp, intervals.drop_last());
        if wp.is_working_spec(intervals.last()) {
            earlier.push(intervals.last())
        } else {
            earlier
        }
    }
}

/// An empty slot over `interval` with `max_size` seats.
pub open spec fn empty_slot(interval: Interval, max_size: usize) -> SlotView {
    SlotView { interval, max_size, reservations: Seq::<Reservation>::empty() }
}

/// Whether `slots` are empty slots with `max_size` seats each, one over each
/// of `intervals`, in their order.
pub open spec fn empty_slots_over(slots: Seq<Slot>, intervals: Seq<Interval>, max_size: usize) -> bool {
    &&& slots.len() == intervals.len()
    &&& forall|i: int|
        0 <= i < slots.len() ==> (#[trigger] slots[i])@ == empty_slot(intervals[i], max_size)
}

/// Whether `slots` are valid slots of the day `date`, each starting before
/// it ends, that follow one another in time.
pub open spec fn chronological_on(slots: Seq<Slot>, date: Date) -> bool {
    &&& forall|i: int|
        0 <= i < slots.len() ==> {
            let interval = (#[trigger] slots[i])@.interval;
            &&& slots[i].is_valid()
            &&& bounds_interval(interval.start_spec(), interval.end_spec())
            &&& interval.start_spec().date_spec() == date
            &&& interval.end_spec().date_spec() == date
        }
    &&& forall|i: int, j: int|
        0 <= i < j < slots.len() ==> (#[trigger] slots[i])@.interval.start_spec()@ < (
        #[trigger] slots[j])@.interval.start_spec()@
}

/// Makes the empty slots that can be booked: how long each lasts and how many
/// seats it has is the factory's to decide.
pub trait SlotsFactory {
    /// The number of seats of every slot that the factory makes.
    spec fn capacity(&self) -> usize;

    /// The interval of the slot that starts at `start`; `None` where no slot
    /// can start there.
    spec fn template(&self, start: Instant) -> Option<Interval>;

    /// Why no slot can start at `start`, where none can.
    spec fn refusal(&self, start: Instant) -> Seq<char>;

    /// The intervals into which the factory divides the day `date`, in
    /// chronological order, before the working hours are asked.
    spec fn candidates(&self, date: Date) -> Seq<Interval>;

    /// The empty slot that starts at `start`.
    ///
    /// Fails with `InvalidInterval` where no slot can start there.
    fn create(&self, start: Instant) -> (r: Result<Slot, Error>)
        ensures
            match self.template(start) {
                Some(interval) => r matches Ok(slot) && slot@ == empty_slot(
                    interval,
                    self.capacity(),
                ) && slot.is_valid() && interval.start_spec() == start,
                None => r matches Err(Error::InvalidInterval(text)) && text@ == self.refusal(
                    start,
                ),
            },
    ;

    /// The empty slots of the day `date`: one for each of the day's
    /// candidate intervals throughout which the office works under `wp`, in
    /// chronological order.
    ///
    /// Each slot starts before it ends and lies on `date`, and a day without
    /// working hours has no slots.
    fn create_all<W: WorkingHoursPolicy>(&self, date: Date, wp: &W) -> (slots: Vec<Slot>)
        ensures
            empty_slots_over(slots@, working_only(wp, self.candidates(date)), self.capacity()),
            forall|i: int|
                0 <= i < slots@.len() ==> {
                    let interval = (#[trigger] slots@[i])@.interval;
                    &&& slots@[i].is_valid()
                    &&& bounds_interval(interval.start_spec(), interval.end_spec())
                    &&& interval.start_spec().date_spec() == date
                    &&& interval.end_spec().date_spec() == date
                    &&& wp.is_working_spec(interval)
                },
            forall|i: int, j: int|
                0 <= i < j < slots@.len() ==> (#[trigger] slots@[i])@.interval.start_spec()@ < (
                #[trigger] slots@[j])@.interval.start_spec()@,
            wp.bounds_spec(date) is None ==> slots@.len() == 0,
    ;
}

/// The intervals of length `duration` that follow one another on the day
/// `date`, the first starting `from` nanoseconds after midnight, as far as
/// they end before the day is over.
pub open spec fn tiles(date: Date, duration: Duration, from: int) -> Seq<Interval>
    decreases 86_400_000_000_000 - from,
{
    if 0 < duration@ && 0 <= from && from + duration@ < 86_400_000_000_000 {
        seq![tile(date, duration, from)] + tiles(date, duration, from + duration@)
    } else {
        Seq::empty()
    }
}

/// The interval of length `duration` that starts `from` nanoseconds after
/// midnight of the day `date`.
pub open spec fn tile(date: Date, duration: Duration, from: int) -> Interval {
    Interval::between(
        Instant::at(date, TimeOfDay::from_nanos(from)),
        Instant::at(date, TimeOfDay::from_nanos(from + duration@)),
    )
}

/// Of the intervals of a positive length `duration` that follow one another
/// from `from` nanoseconds after midnight on, there is one at position `k`
/// exactly if `k + 1` of them end before the day is over, and it starts `k`
/// durations after the first.
pub proof fn lemma_tiles(date: Date, duration: Duration, from: int, k: int)
    requires
        0 < duration@,
        0 <= from,
        0 <= k,
    ensures
        k < tiles(date, duration, from).len() <==> from + (k + 1) * duration@
            < 86_400_000_000_000,
        k < tiles(date, duration, from).len() ==> tiles(date, duration, from)[k] == tile(
            date,
            duration,
            from + k * duration@,
        ),
    decreases k,
{
    let d = duration@;
    assert((k + 1) * d == k * d + d) by (nonlinear_arith);
    assert(k * d >= 0) by (nonlinear_arith)
        requires
            k >= 0,
            d > 0,
    ;
    let all = tiles(date, duration, from);
    if from + d < 86_400_000_000_000 {
        let rest = tiles(date, duration, from + d);
        assert(all == seq![tile(date, duration, from)] + rest);
        assert(all.len() == 1 + rest.len());
        if k > 0 {
            lemma_tiles(date, duration, from + d, k - 1);
            assert((k - 1) * d + d == k * d) by (nonlinear_arith);
            assert(((k - 1) + 1) * d == k * d) by (nonlinear_arith);
            if k < all.len() {
                assert(all[k] == rest[k - 1]);
                assert(from + d + (k - 1) * d == from + k * d);
            }
        } else {
            assert(all[0] == tile(date, duration, from));
            assert(0 * d == 0) by (nonlinear_arith);
        }
    } else {
        assert(all.len() == 0);
    }
}

/// Makes slots that all last equally long and have equally many seats.
pub struct FixedSlotsFactory {
    pub(crate) max_size: usize,
    pub(crate) duration: Duration,
}

impl FixedSlotsFactory {
    /// The number of seats of each slot.
    pub open(crate) spec fn max_size_spec(&self) -> usize {
        self.max_size
    }

    /// How long each slot lasts.
    pub open(crate) spec fn duration_spec(&self) -> Duration {
        self.duration
    }

    /// A factory of slots with `max_size` seats that last `duration`.
    pub fn new(max_size: usize, duration: Duration) -> (r: Self)
        ensures
            r.max_size_spec() == max_size,
            r.duration_spec() == duration,
    {
        Self { max_size, duration }
    }
}

impl FixedSlotsFactory {
    /// The candidate at position `k` of the day `date` starts `k` durations
    /// after midnight and ends one duration later, and there are as many
    /// candidates as durations end before the next midnight.
    pub proof fn lemma_candidates(&self, date: Date, k: int)
        requires
            0 < self.duration_spec()@,
            0 <= k,
        ensures
            k < self.candidates(date).len() <==> (k + 1) * self.duration_spec()@
                < 86_400_000_000_000,
            k < self.candidates(date).len() ==> {
                let interval = self.candidates(date)[k];
                &&& interval.start_spec().date_spec() == date
                &&& interval.end_spec().date_spec() == date
                &&& interval.start_spec().time_spec()@ == k * self.duration_spec()@
                &&& interval.end_spec().time_spec()@ == (k + 1) * self.duration_spec()@
            },
    {
        let d = self.duration_spec()@;
        lemma_tiles(date, self.duration_spec(), 0, k);
        assert((k + 1) * d == k * d + d) by (nonlinear_arith);
        assert(k * d >= 0) by (nonlinear_arith)
            requires
                k >= 0,
                d > 0,
        ;
    }
}

impl SlotsFactory for FixedSlotsFactory {
    open spec fn capacity(&self) -> usize {
        self.max_size_spec()
    }

    /// A slot can start at any instant from which the factory's duration,
    /// if it is positive, ends on the same day.
    open spec fn template(&self, start: Instant) -> Option<Interval> {
        if Interval::fits_in_day(start, self.duration_spec()) {
            Some(Interval::between(start, Instant::of_nanos(start@ + self.duration_spec()@)))
        } else {
            None
        }
    }

    /// The reason is that of the interval: the duration is not positive, or
    /// it ends on another day than it starts.
    open spec fn refusal(&self, start: Instant) -> Seq<char> {
        refusal_of_span(start, self.duration_spec())
    }

    /// The day is divided from midnight on into intervals of the factory's
    /// duration; one that would end at or after the next midnight is left
    /// out, and a duration that is not positive divides nothing.
    open spec fn candidates(&self, date: Date) -> Seq<Interval> {
        tiles(date, self.duration_spec(), 0)
    }

    fn create(&self, start: Instant) -> (r: Result<Slot, Error>) {
        match Interval::with_duration(start, self.duration) {
            Ok(interval) => {
                proof {
                    use_type_invariant(&interval);
                    interval.end_spec().lemma_view();
                }
                Ok(Slot::empty(interval, self.max_size))
            },
            Err(e) => Err(e),
        }
    }

    fn create_all<W: WorkingHoursPolicy>(&self, date: Date, wp: &W) -> (slots: Vec<Slot>) {
        let mut slots: Vec<Slot> = Vec::new();
        proof {
            use_type_invariant(&date);
            use_type_invariant(&self.duration);
        }
        if !self.duration.is_positive() {
            return slots;
        }
        let mut start: Instant = date.and_time(TimeOfDay::midnight());
        let ghost mut from: int = 0;
        let ghost mut seen: Seq<Interval> = Seq::empty();
        loop
            invariant
                date.is_valid(),
                0 < self.duration@,
                0 <= from < 86_400_000_000_000,
                start.is_valid(),
                start == Instant::at(date, TimeOfDay::from_nanos(from)),
                start.time_spec()@ == from,
                self.candidates(date) == seen + tiles(date, self.duration_spec(), from),
                slots@.len() == working_only(wp, seen).len(),
                forall|i: int|
                    0 <= i < slots@.len() ==> (#[trigger] slots@[i])@ == empty_slot(
                        working_only(wp, seen)[i],
                        self.capacity(),
                    ),
                forall|i: int|
                    0 <= i < slots@.len() ==> {
                        let interval = (#[trigger] slots@[i])@.interval;
                        &&& slots@[i].is_valid()
                        &&& bounds_interval(interval.start_spec(), interval.end_spec())
                        &&& interval.start_spec().date_spec() == date
                        &&& interval.end_spec().date_spec() == date
                        &&& wp.is_working_spec(interval)
                        &&& interval.end_spec().time_spec()@ <= from
                    },
                forall|i: int, j: int|
                    0 <= i < j < slots@.len() ==> (#[trigger] slots@[i])@.interval.start_spec()@ < (
                    #[trigger] slots@[j])@.interval.start_spec()@,
                wp.bounds_spec(date) is None ==> slots@.len() == 0,
            ensures
                empty_slots_over(slots@, working_only(wp, self.candidates(date)), self.capacity()),
                forall|i: int|
                    0 <= i < slots@.len() ==> {
                        let interval = (#[trigger] slots@[i])@.interval;
                        &&& slots@[i].is_valid()
                        &&& bounds_interval(interval.start_spec(), interval.end_spec())
                        &&& interval.start_spec().date_spec() == date
                        &&& interval.end_spec().date_spec() == date
                        &&& wp.is_working_spec(interval)
                    },
                forall|i: int, j: int|
                    0 <= i < j < slots@.len() ==> (#[trigger] slots@[i])@.interval.start_spec()@ < (
                    #[trigger] slots@[j])@.interval.start_spec()@,
                wp.bounds_spec(date) is None ==> slots@.len() == 0,
            decreases 86_400_000_000_000 - from,
        {
            proof {
                start.lemma_view();
            }
            let interval: Interval = match Interval::with_duration(start, self.duration) {
                Ok(interval) => interval,
                Err(_) => {
                    proof {
                        assert(tiles(date, self.duration_spec(), from) =~= Seq::empty());
                        assert(seen + Seq::<Interval>::empty() =~= seen);
                    }
                    break;
                },
            };
            proof {
                use_type_invariant(&interval);
                interval.end_spec().lemma_view();
                assert(interval == tile(date, self.duration_spec(), from));
                let rest = tiles(date, self.duration_spec(), from + self.duration@);
                assert(tiles(date, self.duration_spec(), from) == seq![interval] + rest);
                assert(seen + (seq![interval] + rest) =~= seen.push(interval) + rest);
                assert(seen.push(interval).drop_last() =~= seen);
            }
            let ghost before: Seq<Slot> = slots@;
            if wp.is_working(&interval) {
                let slot: Slot = Slot::empty(interval, self.max_size);
                slots.push(slot);
                proof {
                    assert forall|i: int, j: int| 0 <= i < j < slots@.len() implies (
                    #[trigger] slots@[i])@.interval.start_spec()@ < (
                    #[trigger] slots@[j])@.interval.start_spec()@ by {
                        if j == before.len() {
                            assert(slots@[i] == before[i]);
                            let earlier = before[i]@.interval;
                            earlier.start_spec().lemma_view();
                            earlier.end_spec().lemma_view();
                        } else {
                            assert(slots@[i] == before[i]);
                            assert(slots@[j] == before[j]);
                        }
                    }
                }
            }
            proof {
                seen = seen.push(interval);
                from = from + self.duration@;
            }
            start = *interval.end();
        }
        slots
    }
}

} // verus!
