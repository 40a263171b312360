use crate::domain::models::closed_range::ClosedRange;
use crate::domain::models::interval::Interval;
use crate::time::{Date, Instant, TimeOfDay, Weekday};
use vstd::prelude::*;

verus! {

/// The hours during which the office receives visitors.
pub trait WorkingHoursPolicy {
    /// The working hours of the day `date`; `None` on a day without any.
    spec fn bounds_spec(&self, date: Date) -> Option<Interval>;

    /// Whether the office works throughout `interval`.
    spec fn is_working_spec(&self, interval: Interval) -> bool;

    /// The working hours of the day `date`; `None` on a day without any.
    fn bounds(&self, date: Date) -> (r: Option<Interval>)
        ensures
            r == self.bounds_spec(date),
            r matches Some(hours) ==> hours.is_valid() && hours.date_spec() == date,
    ;

    /// Whether the office works throughout `interval`: only then does the
    /// interval lie within the working hours of its day.
    fn is_working(&self, interval: &Interval) -> (r: bool)
        ensures
            r == self.is_working_spec(*interval),
            r ==> (self.bounds_spec(interval.date_spec()) matches Some(hours)
                && hours.contains_spec(interval)),
    ;
}

/// The whole of the day `date`, from midnight to the last instant before the
/// next.
pub open spec fn whole_day(date: Date) -> Interval {
    Interval::between(
        Instant::at(date, TimeOfDay::of(0, 0)),
        Instant::at(date, TimeOfDay::of(86_399, 999_999_999)),
    )
}

/// The stretch `hours` of the day `date`; `None` unless it starts before it
/// ends.
pub open spec fn hours_on(hours: ClosedRange<TimeOfDay>, date: Date) -> Option<Interval> {
    if hours.start@ < hours.end@ {
        Some(Interval::between(Instant::at(date, hours.start), Instant::at(date, hours.end)))
    } else {
        None
    }
}

/// Whether the stretch `hours` of the day of `interval` and `interval` share
/// more than a boundary instant.
pub open spec fn overlaps_hours(hours: ClosedRange<TimeOfDay>, interval: Interval) -> bool {
    Instant::at(interval.date_spec(), hours.start)@ < interval.end_spec()@ && Instant::at(
        interval.date_spec(),
        hours.end,
    )@ > interval.start_spec()@
}

/// A working week from Monday to Friday, each day from its first instant to
/// its last.
#[derive(Default)]
pub struct Mon2FriWorkingHoursPolicy;

impl WorkingHoursPolicy for Mon2FriWorkingHoursPolicy {
    open spec fn bounds_spec(&self, date: Date) -> Option<Interval> {
        if date.weekday_spec().is_weekend() {
            None
        } else {
            Some(whole_day(date))
        }
    }

    open spec fn is_working_spec(&self, interval: Interval) -> bool {
        !interval.date_spec().weekday_spec().is_weekend()
    }

    fn bounds(&self, date: Date) -> (r: Option<Interval>) {
        match date.weekday() {
            Weekday::Sat | Weekday::Sun => None,
            _ => {
                let start: Instant = date.and_time(TimeOfDay::midnight());
                let end: Instant = date.and_time(TimeOfDay::end_of_day());
                match Interval::new(start, end) {
                    Ok(hours) => Some(hours),
                    Err(_) => None,
                }
            },
        }
    }

    fn is_working(&self, interval: &Interval) -> (r: bool) {
        proof {
            use_type_invariant(interval);
            interval.start_spec().lemma_view();
            interval.end_spec().lemma_view();
        }
        match interval.date().weekday() {
            Weekday::Sat | Weekday::Sun => false,
            _ => true,
        }
    }
}

/// A working week of five days with shorter hours on Friday and a lunch break
/// at the same time every day. Public holidays are not known to it.
#[derive(Clone)]
pub struct Mon2ThuAndFriWithLunchWorkingHoursPolicy {
    pub(crate) weekday_hours: ClosedRange<TimeOfDay>,
    pub(crate) friday_hours: ClosedRange<TimeOfDay>,
    pub(crate) lunch: ClosedRange<TimeOfDay>,
}

impl Mon2ThuAndFriWithLunchWorkingHoursPolicy {
    /// The hours from Monday to Thursday.
    pub open(crate) spec fn weekday_hours_spec(&self) -> ClosedRange<TimeOfDay> {
        self.weekday_hours
    }

    /// The hours on Friday.
    pub open(crate) spec fn friday_hours_spec(&self) -> ClosedRange<TimeOfDay> {
        self.friday_hours
    }

    /// The lunch break.
    pub open(crate) spec fn lunch_spec(&self) -> ClosedRange<TimeOfDay> {
        self.lunch
    }

    /// The working hours that apply on a day of the week; `None` at the
    /// weekend.
    pub open spec fn hours_of(&self, weekday: Weekday) -> Option<ClosedRange<TimeOfDay>> {
        match weekday {
            Weekday::Mon | Weekday::Tue | Weekday::Wed | Weekday::Thu => Some(
                self.weekday_hours_spec(),
            ),
            Weekday::Fri => Some(self.friday_hours_spec()),
            Weekday::Sat | Weekday::Sun => None,
        }
    }

    /// A policy with these hours from Monday to Thursday, these on Friday,
    /// and this lunch break.
    pub fn new(
        weekday_hours: ClosedRange<TimeOfDay>,
        friday_hours: ClosedRange<TimeOfDay>,
        lunch: ClosedRange<TimeOfDay>,
    ) -> (r: Self)
        ensures
            r.weekday_hours_spec() == weekday_hours,
            r.friday_hours_spec() == friday_hours,
            r.lunch_spec() == lunch,
    {
        Self { weekday_hours, friday_hours, lunch }
    }
}

impl Mon2ThuAndFriWithLunchWorkingHoursPolicy {
    /// No interval that overlaps the lunch break of its day is working.
    pub proof fn lemma_lunch_is_not_working(&self, interval: Interval)
        requires
            overlaps_hours(self.lunch_spec(), interval),
        ensures
            !self.is_working_spec(interval),
    {
    }

    /// No interval on a Saturday or a Sunday is working, and neither day has
    /// bounds.
    pub proof fn lemma_weekend_is_not_working(&self, interval: Interval)
        requires
            interval.date_spec().weekday_spec().is_weekend(),
        ensures
            self.bounds_spec(interval.date_spec()) is None,
            !self.is_working_spec(interval),
    {
    }

    /// An interval is working exactly if it lies within the hours of its
    /// day, which are those of Friday on a Friday and those of the other
    /// weekdays from Monday to Thursday, and does not overlap the lunch
    /// break.
    pub proof fn lemma_is_working(&self, interval: Interval)
        ensures
            self.is_working_spec(interval) <==> (self.hours_of(
                interval.date_spec().weekday_spec(),
            ) matches Some(hours) && hours.start@ < hours.end@ && Instant::at(
                interval.date_spec(),
                hours.start,
            )@ <= interval.start_spec()@ && interval.end_spec()@ <= Instant::at(
                interval.date_spec(),
                hours.end,
            )@ && !overlaps_hours(self.lunch_spec(), interval)),
    {
    }
}

impl WorkingHoursPolicy for Mon2ThuAndFriWithLunchWorkingHoursPolicy {
    open spec fn bounds_spec(&self, date: Date) -> Option<Interval> {
        match self.hours_of(date.weekday_spec()) {
            Some(hours) => hours_on(hours, date),
            None => None,
        }
    }

    open spec fn is_working_spec(&self, interval: Interval) -> bool {
        match self.bounds_spec(interval.date_spec()) {
            Some(hours) => hours.contains_spec(&interval) && !overlaps_hours(
                self.lunch_spec(),
                interval,
            ),
            None => false,
        }
    }

    fn bounds(&self, date: Date) -> (r: Option<Interval>) {
        let hours: &ClosedRange<TimeOfDay> = match date.weekday() {
            Weekday::Mon | Weekday::Tue | Weekday::Wed | Weekday::Thu => &self.weekday_hours,
            Weekday::Fri => &self.friday_hours,
            Weekday::Sat | Weekday::Sun => {
                return None;
            },
        };
        proof {
            use_type_invariant(&hours.start);
            use_type_invariant(&hours.end);
        }
        match Interval::new(date.and_time(hours.start), date.and_time(hours.end)) {
            Ok(interval) => Some(interval),
            Err(_) => None,
        }
    }

    fn is_working(&self, interval: &Interval) -> (r: bool) {
        let date: Date = interval.date();
        let working_hours: Interval = match self.bounds(date) {
            Some(working_hours) => working_hours,
            None => {
                return false;
            },
        };
        let lunch_start: Instant = date.and_time(self.lunch.start);
        let lunch_end: Instant = date.and_time(self.lunch.end);
        let overlaps_lunch: bool = lunch_start < *interval.end() && lunch_end > *interval.start();
        working_hours.contains(interval) && !overlaps_lunch
    }
}

} // verus!
