use super::calendar::{
    civil_epoch_days, epoch_days_from_ymd, weekday_number, weekday_number_of, MAX_EPOCH_DAYS,
    MIN_EPOCH_DAYS,
};
use super::instant::Instant;
use super::time_of_day::TimeOfDay;
use super::weekday::Weekday;
use core::cmp::Ordering;
use vstd::prelude::*;

verus! {

/// A day of the proleptic Gregorian calendar.
///
/// Its view is the number of days since 1 January 1970.
#[derive(Clone, Copy, Debug, PartialEq, Eq, Structural, Hash)]
pub struct Date {
    pub(crate) days: i32,
}

impl View for Date {
    type V = int;

    open(crate) spec fn view(&self) -> int {
        self.days as int
    }
}

impl Date {
    /// The day `days` days after 1 January 1970.
    pub open(crate) spec fn of(days: int) -> Date {
        Date { days: days as i32 }
    }

    /// The day lies within the range of dates.
    #[verifier::type_invariant]
    pub open(crate) spec fn is_valid(&self) -> bool {
        MIN_EPOCH_DAYS <= self.days <= MAX_EPOCH_DAYS
    }

    /// The day of the week on which the date falls.
    pub open spec fn weekday_spec(&self) -> Weekday {
        Weekday::of_index(weekday_number(self@))
    }

    /// The day `days` days after 1 January 1970; `None` outside the range of
    /// dates.
    pub fn from_epoch_days(days: i32) -> (r: Option<Date>)
        ensures
            MIN_EPOCH_DAYS <= days <= MAX_EPOCH_DAYS ==> (r matches Some(d) && d@ == days
                && d.is_valid()),
            !(MIN_EPOCH_DAYS <= days <= MAX_EPOCH_DAYS) ==> r is None,
    {
        if MIN_EPOCH_DAYS <= days && days <= MAX_EPOCH_DAYS {
            Some(Date { days })
        } else {
            None
        }
    }

    /// The number of days since 1 January 1970.
    pub fn to_epoch_days(&self) -> (r: i32)
        ensures
            r == self@,
            MIN_EPOCH_DAYS <= r <= MAX_EPOCH_DAYS,
    {
        proof {
            use_type_invariant(self);
        }
        self.days
    }

    /// The day that the calendar calls `year`-`month`-`day`; `None` where it
    /// has no such day or the day lies outside the range of dates.
    pub fn from_ymd_opt(year: i32, month: u32, day: u32) -> (r: Option<Date>)
        ensures
            match civil_epoch_days(year as int, month as int, day as int) {
                Some(n) => r matches Some(d) && d@ == n && d.is_valid(),
                None => r is None,
            },
    {
        match epoch_days_from_ymd(year, month, day) {
            Some(days) => Some(Date { days }),
            None => None,
        }
    }

    /// The day of the week on which the date falls.
    pub fn weekday(&self) -> (w: Weekday)
        ensures
            w == self.weekday_spec(),
    {
        proof {
            use_type_invariant(self);
        }
        Weekday::from_days_from_monday(weekday_number_of(self.days))
    }

    /// The next day; `None` after the last date.
    pub fn succ_opt(&self) -> (r: Option<Date>)
        ensures
            self@ < MAX_EPOCH_DAYS ==> (r matches Some(d) && d@ == self@ + 1 && d.is_valid()),
            self@ >= MAX_EPOCH_DAYS ==> r is None,
    {
        proof {
            use_type_invariant(self);
        }
        if self.days < MAX_EPOCH_DAYS {
            Some(Date { days: self.days + 1 })
        } else {
            None
        }
    }

    /// The day `days` days later; `None` where that lies after the last date.
    pub fn checked_add_days(&self, days: u64) -> (r: Option<Date>)
        ensures
            self@ + days <= MAX_EPOCH_DAYS ==> (r matches Some(d) && d@ == self@ + days
                && d.is_valid()),
            self@ + days > MAX_EPOCH_DAYS ==> r is None,
    {
        proof {
            use_type_invariant(self);
        }
        let room: i64 = MAX_EPOCH_DAYS as i64 - self.days as i64;
        if days <= room as u64 {
            Some(Date { days: self.days + days as i32 })
        } else {
            None
        }
    }

    /// The instant at `time` on this day.
    pub fn and_time(&self, time: TimeOfDay) -> (r: Instant)
        ensures
            r == Instant::at(*self, time),
            r.date_spec() == *self,
            r.time_spec() == time,
            r@ == self@ * 86_400_000_000_000 + time@,
            r.is_valid(),
    {
        Instant::new(*self, time)
    }

    /// The instant at `hour:min:sec` on this day; `None` unless `hour < 24`,
    /// `min < 60` and `sec < 60`.
    pub fn and_hms_opt(&self, hour: u32, min: u32, sec: u32) -> (r: Option<Instant>)
        ensures
            hour < 24 && min < 60 && sec < 60 ==> (r matches Some(i) && i.is_valid()
                && i.date_spec() == *self && i@ == self@ * 86_400_000_000_000 + (hour * 3600 + min
                * 60 + sec) * 1_000_000_000),
            !(hour < 24 && min < 60 && sec < 60) ==> r is None,
    {
        match TimeOfDay::from_hms_opt(hour, min, sec) {
            Some(time) => Some(Instant::new(*self, time)),
            None => None,
        }
    }
}

impl PartialOrd for Date {
    fn partial_cmp(&self, other: &Date) -> (r: Option<Ordering>) {
        if self.days < other.days {
            Some(Ordering::Less)
        } else if self.days > other.days {
            Some(Ordering::Greater)
        } else {
            Some(Ordering::Equal)
        }
    }
}

impl vstd::std_specs::cmp::PartialOrdSpecImpl for Date {
    open spec fn obeys_partial_cmp_spec() -> bool {
        true
    }

    /// Dates are ordered as their day numbers.
    open spec fn partial_cmp_spec(&self, other: &Date) -> Option<Ordering> {
        if self@ < other@ {
            Some(Ordering::Less)
        } else if self@ > other@ {
            Some(Ordering::Greater)
        } else {
            Some(Ordering::Equal)
        }
    }
}

} // verus!
