use vstd::prelude::*;

verus! {

/// A signed span of time with nanosecond resolution.
///
/// Its view is the span in nanoseconds.
#[derive(Clone, Copy, Debug, PartialEq, Eq, Structural, Hash)]
pub struct Duration {
    pub(crate) secs: i64,
    pub(crate) nanos: u32,
}

impl View for Duration {
    type V = int;

    open(crate) spec fn view(&self) -> int {
        self.secs * 1_000_000_000 + self.nanos
    }
}

impl Duration {
    /// The sub-second part is always less than one second.
    #[verifier::type_invariant]
    pub open(crate) spec fn is_valid(&self) -> bool {
        self.nanos < 1_000_000_000
    }

    /// A span of `secs` whole seconds plus `nanos` nanoseconds; `None` when
    /// `nanos` is a second or more.
    pub fn new(secs: i64, nanos: u32) -> (r: Option<Duration>)
        ensures
            nanos < 1_000_000_000 ==> (r matches Some(d) && d@ == secs * 1_000_000_000 + nanos),
            nanos >= 1_000_000_000 ==> r is None,
    {
        if nanos < 1_000_000_000 {
            Some(Duration { secs, nanos })
        } else {
            None
        }
    }

    /// The empty span.
    pub fn zero() -> (r: Duration)
        ensures
            r@ == 0,
    {
        Duration { secs: 0, nanos: 0 }
    }

    /// A span of `secs` seconds.
    pub fn seconds(secs: i64) -> (r: Duration)
        ensures
            r@ == secs * 1_000_000_000,
    {
        Duration { secs, nanos: 0 }
    }

    /// A span of `minutes` minutes.
    pub fn minutes(minutes: i64) -> (r: Duration)
        requires
            i64::MIN <= minutes * 60 <= i64::MAX,
        ensures
            r@ == minutes * 60_000_000_000,
    {
        Duration { secs: minutes * 60, nanos: 0 }
    }

    /// A span of `hours` hours.
    pub fn hours(hours: i64) -> (r: Duration)
        requires
            i64::MIN <= hours * 3600 <= i64::MAX,
        ensures
            r@ == hours * 3_600_000_000_000,
    {
        Duration { secs: hours * 3600, nanos: 0 }
    }

    /// The whole seconds of the span, rounded towards negative infinity.
    pub fn whole_seconds(&self) -> (r: i64)
        ensures
            r * 1_000_000_000 <= self@ < (r + 1) * 1_000_000_000,
    {
        proof {
            use_type_invariant(self);
        }
        self.secs
    }

    /// The nanoseconds above `whole_seconds`.
    pub fn subsec_nanos(&self) -> (r: u32)
        ensures
            r < 1_000_000_000,
            r == self@ - self.whole_seconds_spec() * 1_000_000_000,
    {
        proof {
            use_type_invariant(self);
        }
        self.nanos
    }

    /// The whole seconds of the span, as a specification.
    pub open(crate) spec fn whole_seconds_spec(&self) -> int {
        self.secs as int
    }

    /// Whether the span is longer than nothing.
    pub fn is_positive(&self) -> (r: bool)
        ensures
            r == (self@ > 0),
    {
        proof {
            use_type_invariant(self);
        }
        self.secs > 0 || (self.secs == 0 && self.nanos > 0)
    }
}

} // verus!
