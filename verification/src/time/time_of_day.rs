use core::cmp::Ordering;
use vstd::prelude::*;

verus! {

/// A time of day with nanosecond resolution, from midnight up to the last
/// nanosecond before the next midnight.
///
/// Its view is the number of nanoseconds since midnight.
#[derive(Clone, Copy, Debug, PartialEq, Eq, Structural, Hash)]
pub struct TimeOfDay {
    pub(crate) secs: u32,
    pub(crate) nanos: u32,
}

impl View for TimeOfDay {
    type V = int;

    open(crate) spec fn view(&self) -> int {
        self.secs * 1_000_000_000 + self.nanos
    }
}

impl TimeOfDay {
    /// Fewer than 86 400 seconds, and less than a second above them.
    #[verifier::type_invariant]
    pub open(crate) spec fn is_valid(&self) -> bool {
        self.secs < 86_400 && self.nanos < 1_000_000_000
    }

    /// The time `secs` seconds and `nanos` nanoseconds after midnight.
    pub open(crate) spec fn of(secs: u32, nanos: u32) -> TimeOfDay {
        TimeOfDay { secs, nanos }
    }

    /// The time `nanos` nanoseconds after midnight.
    pub open spec fn from_nanos(nanos: int) -> TimeOfDay {
        Self::of((nanos / 1_000_000_000) as u32, (nanos % 1_000_000_000) as u32)
    }

    /// The time `hour:min:sec`.
    pub open spec fn hms(hour: u32, min: u32, sec: u32) -> TimeOfDay {
        Self::of((hour * 3600 + min * 60 + sec) as u32, 0)
    }

    /// Midnight, the first time of a day.
    pub fn midnight() -> (r: TimeOfDay)
        ensures
            r == Self::of(0, 0),
            r@ == 0,
            r.is_valid(),
    {
        TimeOfDay { secs: 0, nanos: 0 }
    }

    /// The last time of a day that can be told from the next midnight.
    pub fn end_of_day() -> (r: TimeOfDay)
        ensures
            r == Self::of(86_399, 999_999_999),
            r@ == 86_400_000_000_000 - 1,
            r.is_valid(),
    {
        TimeOfDay { secs: 86_399, nanos: 999_999_999 }
    }

    /// The time `hour:min:sec`; `None` unless `hour < 24`, `min < 60` and
    /// `sec < 60`.
    pub fn from_hms_opt(hour: u32, min: u32, sec: u32) -> (r: Option<TimeOfDay>)
        ensures
            hour < 24 && min < 60 && sec < 60 ==> (r matches Some(t) && t.is_valid() && t
                == Self::hms(hour, min, sec) && t@ == (hour * 3600 + min * 60 + sec)
                * 1_000_000_000),
            !(hour < 24 && min < 60 && sec < 60) ==> r is None,
    {
        if hour < 24 && min < 60 && sec < 60 {
            Some(TimeOfDay { secs: hour * 3600 + min * 60 + sec, nanos: 0 })
        } else {
            None
        }
    }

    /// The time `secs` seconds and `nanos` nanoseconds after midnight; `None`
    /// unless `secs < 86_400` and `nanos < 1_000_000_000`.
    pub fn from_num_seconds_from_midnight_opt(secs: u32, nanos: u32) -> (r: Option<TimeOfDay>)
        ensures
            secs < 86_400 && nanos < 1_000_000_000 ==> (r matches Some(t) && t.is_valid() && t
                == Self::of(secs, nanos) && t@ == secs * 1_000_000_000 + nanos),
            !(secs < 86_400 && nanos < 1_000_000_000) ==> r is None,
    {
        if secs < 86_400 && nanos < 1_000_000_000 {
            Some(TimeOfDay { secs, nanos })
        } else {
            None
        }
    }

    /// The whole seconds since midnight.
    pub fn num_seconds_from_midnight(&self) -> (r: u32)
        ensures
            r < 86_400,
            r == self@ / 1_000_000_000,
    {
        proof {
            use_type_invariant(self);
        }
        self.secs
    }

    /// The nanoseconds since the last whole second.
    pub fn nanosecond(&self) -> (r: u32)
        ensures
            r < 1_000_000_000,
            r == self@ % 1_000_000_000,
    {
        proof {
            use_type_invariant(self);
        }
        self.nanos
    }
}

impl PartialOrd for TimeOfDay {
    fn partial_cmp(&self, other: &TimeOfDay) -> (r: Option<Ordering>) {
        proof {
            use_type_invariant(self);
            use_type_invariant(other);
        }
        if self.secs < other.secs {
            Some(Ordering::Less)
        } else if self.secs > other.secs {
            Some(Ordering::Greater)
        } else if self.nanos < other.nanos {
            Some(Ordering::Less)
        } else if self.nanos > other.nanos {
            Some(Ordering::Greater)
        } else {
            Some(Ordering::Equal)
        }
    }
}

impl vstd::std_specs::cmp::PartialOrdSpecImpl for TimeOfDay {
    open spec fn obeys_partial_cmp_spec() -> bool {
        true
    }

    /// Times of day are ordered as their distances from midnight.
    open spec fn partial_cmp_spec(&self, other: &TimeOfDay) -> Option<Ordering> {
        if self@ < other@ {
            Some(Ordering::Less)
        } else if self@ > other@ {
            Some(Ordering::Greater)
        } else {
            Some(Ordering::Equal)
        }
    }
}

} // verus!
