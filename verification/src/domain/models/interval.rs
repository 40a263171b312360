use crate::domain::error::Error;
use crate::time::instant::instant_in_range;
use crate::time::{Date, Duration, Instant};
use vstd::prelude::*;
use vstd::string::StringExecFns;

verus! {

/// A stretch of time from `start` to `end` that lies within one day.
#[derive(Debug, Clone, Copy, PartialEq, Eq, Structural)]
pub struct Interval {
    pub(crate) start: Instant,
    pub(crate) end: Instant,
}

/// Whether `start` and `end` bound an interval: `start` lies before `end`, and
/// both on the same day.
pub open spec fn bounds_interval(start: Instant, end: Instant) -> bool {
    start@ < end@ && start.date_spec() == end.date_spec()
}

/// Why `start` and `end` bound no interval: `end` lies before `start`, the
/// two are the same instant, or they lie on different days.
pub open spec fn refusal(start: Instant, end: Instant) -> Seq<char> {
    if start@ > end@ {
        "expected start < end"@
    } else if start@ == end@ {
        "expected not zero interval"@
    } else {
        "expected interval in one day"@
    }
}

/// Why a span of `duration` from `start` makes no interval: as `refusal`
/// has it of `start` and the instant at which the span ends, or that the
/// interval does not lie in one day where that instant lies beyond the range
/// of dates.
pub open spec fn refusal_of_span(start: Instant, duration: Duration) -> Seq<char> {
    if instant_in_range(start@ + duration@) {
        refusal(start, Instant::of_nanos(start@ + duration@))
    } else {
        "expected interval in one day"@
    }
}

impl Interval {
    /// The interval from `start` to `end`.
    pub open(crate) spec fn between(start: Instant, end: Instant) -> Interval {
        Interval { start, end }
    }

    /// The bounds are valid instants that bound an interval.
    #[verifier::type_invariant]
    pub open(crate) spec fn is_valid(&self) -> bool {
        self.start.is_valid() && self.end.is_valid() && bounds_interval(self.start, self.end)
    }

    /// The instant at which the interval starts.
    pub open(crate) spec fn start_spec(&self) -> Instant {
        self.start
    }

    /// The instant at which the interval ends.
    pub open(crate) spec fn end_spec(&self) -> Instant {
        self.end
    }

    /// The day on which the interval lies.
    pub open spec fn date_spec(&self) -> Date {
        self.start_spec().date_spec()
    }

    /// `self` encloses `other`: it starts no later and ends no earlier.
    pub open spec fn contains_spec(&self, other: &Interval) -> bool {
        self.start_spec()@ <= other.start_spec()@ && self.end_spec()@ >= other.end_spec()@
    }

    /// The intervals share more than a boundary instant: each starts strictly
    /// before the other ends.
    pub open spec fn overlaps_spec(&self, other: &Interval) -> bool {
        self.start_spec()@ < other.end_spec()@ && self.end_spec()@ > other.start_spec()@
    }

    /// The interval from `start` to `end`.
    ///
    /// Fails with `InvalidInterval` unless `start` lies before `end` and both
    /// lie on the same day.
    pub fn new(start: Instant, end: Instant) -> (r: Result<Interval, Error>)
        ensures
            bounds_interval(start, end) ==> (r matches Ok(i) && i == Self::between(start, end)
                && i.start_spec() == start && i.end_spec() == end && i.is_valid()),
            !bounds_interval(start, end) ==> (r matches Err(Error::InvalidInterval(text)) && text@
                == refusal(start, end)),
    {
        proof {
            use_type_invariant(&start.date);
            use_type_invariant(&start.time);
            use_type_invariant(&end.date);
            use_type_invariant(&end.time);
        }
        if start > end {
            return Err(Error::InvalidInterval(String::from_str("expected start < end")));
        }
        if start == end {
            return Err(Error::InvalidInterval(String::from_str("expected not zero interval")));
        }
        if start.date() != end.date() {
            return Err(Error::InvalidInterval(String::from_str("expected interval in one day")));
        }
        Ok(Interval { start, end })
    }

    /// The interval that starts at `start` and lasts `duration`.
    ///
    /// Fails with `InvalidInterval` unless the span is positive and ends on
    /// the day on which it starts.
    pub fn with_duration(start: Instant, duration: Duration) -> (r: Result<Interval, Error>)
        ensures
            Self::fits_in_day(start, duration) ==> (r matches Ok(i) && i.start_spec() == start
                && i.end_spec()@ == start@ + duration@ && i.is_valid()),
            !Self::fits_in_day(start, duration) ==> (r matches Err(Error::InvalidInterval(text))
                && text@ == refusal_of_span(start, duration)),
    {
        proof {
            use_type_invariant(&start.date);
            use_type_invariant(&start.time);
            start.lemma_view();
        }
        match start.checked_add(duration) {
            Some(end) => {
                proof {
                    end.lemma_view();
                }
                Self::new(start, end)
            },
            None => Err(Error::InvalidInterval(String::from_str("expected interval in one day"))),
        }
    }

    /// Whether a span of `duration` from `start` is positive and ends before
    /// the day of `start` is over.
    pub open spec fn fits_in_day(start: Instant, duration: Duration) -> bool {
        0 < duration@ && start.time_spec()@ + duration@ < 86_400_000_000_000
    }

    /// The instant at which the interval starts.
    pub fn start(&self) -> (r: &Instant)
        ensures
            *r == self.start_spec(),
            r.is_valid(),
    {
        proof {
            use_type_invariant(self);
        }
        &self.start
    }

    /// The instant at which the interval ends.
    pub fn end(&self) -> (r: &Instant)
        ensures
            *r == self.end_spec(),
            r.is_valid(),
    {
        proof {
            use_type_invariant(self);
        }
        &self.end
    }

    /// The day on which the interval lies.
    pub fn date(&self) -> (r: Date)
        ensures
            r == self.date_spec(),
            r == self.end_spec().date_spec(),
            r.is_valid(),
    {
        proof {
            use_type_invariant(self);
        }
        self.start.date()
    }

    /// Whether `self` encloses `other`.
    pub fn contains(&self, other: &Interval) -> (r: bool)
        ensures
            r == self.contains_spec(other),
    {
        self.start <= other.start && self.end >= other.end
    }

    /// Whether the intervals overlap; intervals that only touch do not.
    pub fn overlaps(&self, other: &Interval) -> (r: bool)
        ensures
            r == self.overlaps_spec(other),
    {
        self.start < other.end && self.end > other.start
    }

    /// Whether the intervals do not overlap.
    pub fn is_disjoint(&self, other: &Interval) -> (r: bool)
        ensures
            r == !self.overlaps_spec(other),
    {
        !self.overlaps(other)
    }

    /// Whether the intervals lie apart: they do not overlap and neither
    /// encloses the other.
    pub fn separate_with(&self, other: &Interval) -> (r: bool)
        ensures
            r == (!self.overlaps_spec(other) && !self.contains_spec(other) && !other.contains_spec(
                self,
            )),
    {
        self.is_disjoint(other) && !self.contains(other) && !other.contains(self)
    }
}

} // verus!
