use super::calendar::{MAX_EPOCH_DAYS, MIN_EPOCH_DAYS};
use super::date::Date;
use super::duration::Duration;
use super::time_of_day::TimeOfDay;
use core::cmp::Ordering;
use vstd::prelude::*;

verus! {

/// A point on the UTC time line: a date and a time of that day.
///
/// Its view is the number of nanoseconds since midnight of 1 January 1970.
#[derive(Clone, Copy, Debug, PartialEq, Eq, Structural, Hash)]
pub struct Instant {
    pub(crate) date: Date,
    pub(crate) time: TimeOfDay,
}

impl View for Instant {
    type V = int;

    open(crate) spec fn view(&self) -> int {
        self.date@ * 86_400_000_000_000 + self.time@
    }
}

/// Whether `nanos` nanoseconds since 1 January 1970 lie on a day within the
/// range of dates.
pub open spec fn instant_in_range(nanos: int) -> bool {
    MIN_EPOCH_DAYS * 86_400_000_000_000 <= nanos < (MAX_EPOCH_DAYS + 1) * 86_400_000_000_000
}

impl Instant {
    /// The instant at `time` on `date`.
    pub open(crate) spec fn at(date: Date, time: TimeOfDay) -> Instant {
        Instant { date, time }
    }

    /// The instant `nanos` nanoseconds after midnight of 1 January 1970.
    pub open spec fn of_nanos(nanos: int) -> Instant {
        Self::at(
            Date::of(nanos / 86_400_000_000_000),
            TimeOfDay::from_nanos(nanos % 86_400_000_000_000),
        )
    }

    /// Date and time are each valid.
    pub open(crate) spec fn is_valid(&self) -> bool {
        self.date.is_valid() && self.time.is_valid()
    }

    /// The day on which the instant lies.
    pub open(crate) spec fn date_spec(&self) -> Date {
        self.date
    }

    /// The time of day of the instant.
    pub open(crate) spec fn time_spec(&self) -> TimeOfDay {
        self.time
    }

    /// A valid instant lies in range, its day is the whole days of its view
    /// and its time of day is the rest.
    pub proof fn lemma_view(&self)
        requires
            self.is_valid(),
        ensures
            instant_in_range(self@),
            self.date_spec()@ == self@ / 86_400_000_000_000,
            self.time_spec()@ == self@ % 86_400_000_000_000,
            self@ == self.date_spec()@ * 86_400_000_000_000 + self.time_spec()@,
            *self == Self::of_nanos(self@),
            self.date_spec().is_valid(),
            self.time_spec().is_valid(),
    {
    }

    /// The instant at `time` on `date`.
    pub fn new(date: Date, time: TimeOfDay) -> (r: Instant)
        ensures
            r == Instant::at(date, time),
            r.date_spec() == date,
            r.time_spec() == time,
            r@ == date@ * 86_400_000_000_000 + time@,
            r.is_valid(),
    {
        proof {
            use_type_invariant(&date);
            use_type_invariant(&time);
        }
        Instant { date, time }
    }

    /// The day on which the instant lies.
    pub fn date(&self) -> (r: Date)
        ensures
            r == self.date_spec(),
            r.is_valid(),
    {
        proof {
            use_type_invariant(&self.date);
        }
        self.date
    }

    /// The time of day of the instant.
    pub fn time(&self) -> (r: TimeOfDay)
        ensures
            r == self.time_spec(),
            r.is_valid(),
    {
        proof {
            use_type_invariant(&self.time);
        }
        self.time
    }

    /// The instant `duration` later (earlier, for a negative span); `None`
    /// where that lies outside the range of dates.
    pub fn checked_add(&self, duration: Duration) -> (r: Option<Instant>)
        ensures
            instant_in_range(self@ + duration@) ==> (r matches Some(i) && i@ == self@ + duration@
                && i == Self::of_nanos(self@ + duration@) && i.is_valid()),
            !instant_in_range(self@ + duration@) ==> r is None,
    {
        proof {
            use_type_invariant(&self.date);
            use_type_invariant(&self.time);
            use_type_invariant(&duration);
        }
        let day: i128 = 86_400_000_000_000;
        let since_midnight: i128 = self.time.secs as i128 * 1_000_000_000 + self.time.nanos as i128;
        let span: i128 = duration.secs as i128 * 1_000_000_000 + duration.nanos as i128;
        let total: i128 = since_midnight + span;
        let days_over: i128;
        let rest: i128;
        if total >= 0 {
            days_over = total / day;
            rest = total % day;
        } else {
            let back: i128 = -total;
            let days_back: i128 = (back + (day - 1)) / day;
            days_over = -days_back;
            rest = days_back * day - back;
        }
        assert(0 <= rest < 86_400_000_000_000);
        assert(total == days_over * 86_400_000_000_000 + rest);
        let days: i128 = self.date.days as i128 + days_over;
        if MIN_EPOCH_DAYS as i128 <= days && days <= MAX_EPOCH_DAYS as i128 {
            let secs: u32 = (rest / 1_000_000_000) as u32;
            let nanos: u32 = (rest % 1_000_000_000) as u32;
            let sum: Instant = Instant {
                date: Date { days: days as i32 },
                time: TimeOfDay { secs, nanos },
            };
            proof {
                sum.lemma_view();
            }
            Some(sum)
        } else {
            None
        }
    }
}

impl PartialOrd for Instant {
    fn partial_cmp(&self, other: &Instant) -> (r: Option<Ordering>) {
        proof {
            use_type_invariant(&self.date);
            use_type_invariant(&self.time);
            use_type_invariant(&other.date);
            use_type_invariant(&other.time);
        }
        if self.date.days < other.date.days {
            Some(Ordering::Less)
        } else if self.date.days > other.date.days {
            Some(Ordering::Greater)
        } else if self.time.secs < other.time.secs {
            Some(Ordering::Less)
        } else if self.time.secs > other.time.secs {
            Some(Ordering::Greater)
        } else if self.time.nanos < other.time.nanos {
            Some(Ordering::Less)
        } else if self.time.nanos > other.time.nanos {
            Some(Ordering::Greater)
        } else {
            Some(Ordering::Equal)
        }
    }
}

impl vstd::std_specs::cmp::PartialOrdSpecImpl for Instant {
    open spec fn obeys_partial_cmp_spec() -> bool {
        true
    }

    /// Instants are ordered as they lie on the time line.
    open spec fn partial_cmp_spec(&self, other: &Instant) -> Option<Ordering> {
        if self@ < other@ {
            Some(Ordering::Less)
        } else if self@ > other@ {
            Some(Ordering::Greater)
        } else {
            Some(Ordering::Equal)
        }
    }
}

} // verus!
