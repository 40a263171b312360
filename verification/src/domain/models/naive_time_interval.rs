use crate::domain::error::Error;
use crate::domain::models::interval::Interval;
use crate::time::{Date, TimeOfDay};
use vstd::prelude::*;
use vstd::string::StringExecFns;

verus! {

/// A stretch of the day from one time to a later one, on no day in
/// particular.
#[derive(Debug, Clone, Copy, PartialEq, Eq, Structural)]
pub struct NaiveTimeInterval {
    pub(crate) start: TimeOfDay,
    pub(crate) end: TimeOfDay,
}

impl NaiveTimeInterval {
    /// The bounds are valid times, the first before the second.
    #[verifier::type_invariant]
    pub open(crate) spec fn is_valid(&self) -> bool {
        self.start.is_valid() && self.end.is_valid() && self.start@ < self.end@
    }

    /// The time at which the stretch starts.
    pub open(crate) spec fn start_spec(&self) -> TimeOfDay {
        self.start
    }

    /// The time at which the stretch ends.
    pub open(crate) spec fn end_spec(&self) -> TimeOfDay {
        self.end
    }

    /// The stretch from `start` to `end`.
    ///
    /// Fails with `InvalidInterval` unless `start` lies before `end`.
    pub fn new(start: TimeOfDay, end: TimeOfDay) -> (r: Result<NaiveTimeInterval, Error>)
        ensures
            start@ < end@ ==> (r matches Ok(i) && i.start_spec() == start && i.end_spec() == end
                && i.is_valid()),
            start@ > end@ ==> (r matches Err(Error::InvalidInterval(text)) && text@
                == "expected start < end"@),
            start@ == end@ ==> (r matches Err(Error::InvalidInterval(text)) && text@
                == "expected not zero interval"@),
    {
        proof {
            use_type_invariant(&start);
            use_type_invariant(&end);
        }
        if start > end {
            return Err(Error::InvalidInterval(String::from_str("expected start < end")));
        }
        if start == end {
            return Err(Error::InvalidInterval(String::from_str("expected not zero interval")));
        }
        Ok(NaiveTimeInterval { start, end })
    }

    /// The interval that covers this stretch of the day `date`.
    pub fn and_date(self, date: Date) -> (r: Interval)
        ensures
            r.start_spec().date_spec() == date,
            r.start_spec().time_spec() == self.start_spec(),
            r.end_spec().date_spec() == date,
            r.end_spec().time_spec() == self.end_spec(),
            r.date_spec() == date,
            r.is_valid(),
    {
        proof {
            use_type_invariant(&self);
            use_type_invariant(&date);
        }
        Interval { start: date.and_time(self.start), end: date.and_time(self.end) }
    }

    /// The time at which the stretch starts.
    pub fn start(&self) -> (r: &TimeOfDay)
        ensures
            *r == self.start_spec(),
    {
        &self.start
    }

    /// The time at which the stretch ends.
    pub fn end(&self) -> (r: &TimeOfDay)
        ensures
            *r == self.end_spec(),
    {
        &self.end
    }
}

} // verus!
