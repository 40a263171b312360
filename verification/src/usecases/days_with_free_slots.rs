use crate::domain::models::service::Service;
use crate::domain::models::slot::Slot;
use crate::domain::models::user::User;
use crate::domain::services::deadline_policy::DeadlinePolicy;
use crate::domain::services::slots_factory::{
    chronological_on, empty_slots_over, working_only, SlotsFactory,
};
use crate::domain::services::working_hours_policy::WorkingHoursPolicy;
use crate::time::calendar::{MAX_EPOCH_DAYS, MIN_EPOCH_DAYS};
use crate::time::Date;
use vstd::prelude::*;

verus! {

/// How many days ahead a service without a deadline can be booked.
pub const MAX_DAYS_BEFORE_RESERVE: u64 = 14;

/// Finds the days on which a user can still book a service.
pub struct DaysWithFreeSlotsUseCase<F, D, W> {
    pub(crate) factory: F,
    pub(crate) deadline_policy: D,
    pub(crate) working_hours_policy: W,
}

/// A search for days with free slots, between two questions to the store.
///
/// It knows the days that it has yet to look at, the day about which the
/// store has been asked, and the days that the store has said to have a free
/// slot.
pub struct DaysScan {
    pub(crate) next: i64,
    pub(crate) end: i64,
    pub(crate) asked: Option<Date>,
    pub(crate) days: Vec<Date>,
}

/// What a search does next.
pub enum DaysStep {
    /// Ask the store whether one of these slots, the slots of the day about
    /// which the search now asks, has a free seat, and answer the search.
    Ask(DaysScan, Vec<Slot>),
    /// Nothing: the search is over, and these are the days with a free slot.
    Done(Vec<Date>),
}

/// Whether the days `days` follow one another in time and all lie before
/// the day `before`.
pub open spec fn ascending_before(days: Seq<Date>, before: int) -> bool {
    &&& forall|i: int, j: int| 0 <= i < j < days.len() ==> days[i]@ < days[j]@
    &&& forall|i: int| 0 <= i < days.len() ==> days[i]@ < before
}

impl DaysScan {
    /// The window lies within the range of dates, the day asked about lies
    /// before those yet to be looked at, and the days found lie before it, in
    /// ascending order.
    #[verifier::type_invariant]
    pub open(crate) spec fn is_valid(&self) -> bool {
        &&& MIN_EPOCH_DAYS <= self.next <= self.end <= MAX_EPOCH_DAYS + 1
        &&& match self.asked {
            Some(day) => day.is_valid() && day@ < self.next && ascending_before(self.days@, day@),
            None => ascending_before(self.days@, self.next as int),
        }
        &&& forall|i: int| 0 <= i < self.days@.len() ==> (#[trigger] self.days@[i]).is_valid()
    }

    /// The first day yet to be looked at, counted from 1 January 1970.
    pub open(crate) spec fn next_spec(&self) -> int {
        self.next as int
    }

    /// The day at which the search ends, itself not looked at.
    pub open(crate) spec fn end_spec(&self) -> int {
        self.end as int
    }

    /// The day about which the store has been asked and has not answered.
    pub open(crate) spec fn asked_spec(&self) -> Option<Date> {
        self.asked
    }

    /// The days that the store has said to have a free slot.
    pub open(crate) spec fn found(&self) -> Seq<Date> {
        self.days@
    }
}

impl<F: SlotsFactory, D: DeadlinePolicy, W: WorkingHoursPolicy> DaysWithFreeSlotsUseCase<F, D, W> {
    /// The factory that makes the slots.
    pub open(crate) spec fn factory_spec(&self) -> F {
        self.factory
    }

    /// The policy that sets the deadlines.
    pub open(crate) spec fn deadline_policy_spec(&self) -> D {
        self.deadline_policy
    }

    /// The policy that sets the working hours.
    pub open(crate) spec fn working_hours_policy_spec(&self) -> W {
        self.working_hours_policy
    }

    /// The day at which the search for `user` and `service` from the day
    /// `start` on ends, itself not looked at: the cutoff of the user's
    /// deadline where the service has one, else the day that lies the fixed
    /// number of days after `start`.
    pub open spec fn window_end(&self, user: User, start: Date, service: Service) -> int {
        if service.has_deadline_spec() {
            user.arrival_date_spec()@ + self.deadline_policy_spec().deadline_spec(
                user.citizenship_spec(),
            )
        } else {
            start@ + MAX_DAYS_BEFORE_RESERVE
        }
    }

    /// Whether the day `day` has slots at all.
    pub open spec fn has_slots(&self, day: int) -> bool {
        working_only(
            &self.working_hours_policy_spec(),
            self.factory_spec().candidates(Date::of(day)),
        ).len() > 0
    }

    /// The days from `next` up to the day before `end` that have slots and
    /// of which the store says, by `free`, that one of them has a free seat,
    /// in ascending order: what a search that stands at `next` still finds.
    pub open spec fn days_free(&self, next: int, end: int, free: spec_fn(int) -> bool) -> Seq<int>
        decreases end - next,
    {
        if next >= end {
            Seq::empty()
        } else if self.has_slots(next) && free(next) {
            seq![next] + self.days_free(next + 1, end, free)
        } else {
            self.days_free(next + 1, end, free)
        }
    }

    /// A search that passes over days without slots and asks about the day
    /// `day` finds that day, if the store says yes, and then what it finds
    /// from the next day on.
    pub proof fn lemma_days_free_asked(&self, next: int, end: int, day: int, free: spec_fn(int) -> bool)
        requires
            next <= day < end,
            forall|d: int| next <= d < day ==> !self.has_slots(d),
            self.has_slots(day),
        ensures
            self.days_free(next, end, free) == if free(day) {
                seq![day] + self.days_free(day + 1, end, free)
            } else {
                self.days_free(day + 1, end, free)
            },
        decreases day - next,
    {
        if next < day {
            self.lemma_days_free_asked(next + 1, end, day, free);
        }
    }

    /// A search that is done because no day that is left has slots finds
    /// nothing more.
    pub proof fn lemma_days_free_done(&self, next: int, end: int, free: spec_fn(int) -> bool)
        requires
            forall|d: int| next <= d < end ==> !self.has_slots(d),
        ensures
            self.days_free(next, end, free) == Seq::<int>::empty(),
        decreases end - next,
    {
        if next < end {
            self.lemma_days_free_done(next + 1, end, free);
        }
    }

    /// The days that a search finds are days of its window that have slots
    /// and a free seat, each of them, in ascending order.
    pub proof fn lemma_days_free(&self, next: int, end: int, free: spec_fn(int) -> bool)
        ensures
            forall|k: int|
                0 <= k < self.days_free(next, end, free).len() ==> {
                    let day = #[trigger] self.days_free(next, end, free)[k];
                    next <= day < end && self.has_slots(day) && free(day)
                },
            forall|k: int, l: int|
                0 <= k < l < self.days_free(next, end, free).len() ==> self.days_free(
                    next,
                    end,
                    free,
                )[k] < self.days_free(next, end, free)[l],
            forall|d: int|
                next <= d < end && self.has_slots(d) && free(d) ==> self.days_free(
                    next,
                    end,
                    free,
                ).contains(d),
        decreases end - next,
    {
        if next < end {
            self.lemma_days_free(next + 1, end, free);
            let rest = self.days_free(next + 1, end, free);
            let all = self.days_free(next, end, free);
            if self.has_slots(next) && free(next) {
                assert(all[0] == next);
                assert forall|k: int| 0 < k < all.len() implies all[k] == rest[k - 1] by {}
                assert forall|d: int|
                    next <= d < end && self.has_slots(d) && free(d) implies all.contains(d) by {
                    if d > next {
                        let k = choose|k: int| 0 <= k < rest.len() && rest[k] == d;
                        assert(all[k + 1] == d);
                    }
                }
                assert forall|k: int, l: int| 0 <= k < l < all.len() implies all[k] < all[l] by {
                    assert(all[l] == rest[l - 1]);
                    if k > 0 {
                        assert(all[k] == rest[k - 1]);
                    }
                }
            }
        }
    }

    /// A search in the slots that `factory` makes under
    /// `working_hours_policy`, as far as `deadline_policy` allows.
    pub fn new(factory: F, deadline_policy: D, working_hours_policy: W) -> (r: Self)
        ensures
            r.factory_spec() == factory,
            r.deadline_policy_spec() == deadline_policy,
            r.working_hours_policy_spec() == working_hours_policy,
    {
        Self { factory, deadline_policy, working_hours_policy }
    }

    /// Begins the search for the days, from `start_date` on, on which `user`
    /// can book `service`: it will look at every day from `start_date` up to
    /// the day before the end of the window, as far as dates go, and has
    /// found none yet.
    pub fn days_with_free_slots(&self, user: &User, start_date: Date, service: Service) -> (scan:
        DaysScan)
        ensures
            scan.next_spec() == start_date@,
            scan.end_spec() == if self.window_end(*user, start_date, service) < start_date@ {
                start_date@
            } else if self.window_end(*user, start_date, service) > MAX_EPOCH_DAYS + 1 {
                MAX_EPOCH_DAYS + 1
            } else {
                self.window_end(*user, start_date, service)
            },
            scan.asked_spec() is None,
            scan.found() == Seq::<Date>::empty(),
    {
        proof {
            use_type_invariant(&start_date);
        }
        let start: i64 = start_date.to_epoch_days() as i64;
        let window_end: i128 = if service.has_deadline() {
            user.arrival_date().to_epoch_days() as i128 + self.deadline_policy.deadline(
                user.citizenship(),
            ) as i128
        } else {
            start as i128 + MAX_DAYS_BEFORE_RESERVE as i128
        };
        let end: i64 = if window_end < start as i128 {
            start
        } else if window_end > MAX_EPOCH_DAYS as i128 + 1 {
            MAX_EPOCH_DAYS as i64 + 1
        } else {
            window_end as i64
        };
        DaysScan { next: start, end, asked: None, days: Vec::new() }
    }

    /// Goes on with the search: passes over the days without slots, and
    /// either asks about the first day that has some, handing out its empty
    /// slots, or is done, handing out the days found, in ascending order.
    ///
    /// A question that was not answered counts as answered with no.
    pub fn step(&self, scan: DaysScan) -> (r: DaysStep)
        ensures
            match r {
                DaysStep::Ask(after, slots) => {
                    &&& after.asked_spec() matches Some(day)
                    &&& scan.next_spec() <= day@ < scan.end_spec()
                    &&& forall|d: int| scan.next_spec() <= d < day@ ==> !self.has_slots(d)
                    &&& self.has_slots(day@)
                    &&& after.next_spec() == day@ + 1
                    &&& after.end_spec() == scan.end_spec()
                    &&& after.found() == scan.found()
                    &&& empty_slots_over(
                        slots@,
                        working_only(
                            &self.working_hours_policy_spec(),
                            self.factory_spec().candidates(day),
                        ),
                        self.factory_spec().capacity(),
                    )
                    &&& chronological_on(slots@, day)
                },
                DaysStep::Done(days) => {
                    &&& forall|d: int|
                        scan.next_spec() <= d < scan.end_spec() ==> !self.has_slots(d)
                    &&& days@ == scan.found()
                    &&& forall|i: int, j: int| 0 <= i < j < days@.len() ==> days@[i]@ < days@[j]@
                },
            },
    {
        proof {
            use_type_invariant(&scan);
        }
        let DaysScan { next, end, asked, days } = scan;
        let mut next: i64 = next;
        while next < end
            invariant
                MIN_EPOCH_DAYS <= scan.next_spec() <= next <= end <= MAX_EPOCH_DAYS + 1,
                end == scan.end_spec(),
                days@ == scan.found(),
                ascending_before(days@, scan.next_spec()),
                forall|i: int| 0 <= i < days@.len() ==> (#[trigger] days@[i]).is_valid(),
                forall|d: int| scan.next_spec() <= d < next ==> !self.has_slots(d),
            decreases end - next,
        {
            let day: Date = match Date::from_epoch_days(next as i32) {
                Some(day) => day,
                None => {
                    return DaysStep::Done(days);
                },
            };
            assert(day == Date::of(next as int));
            let slots: Vec<Slot> = self.factory.create_all(day, &self.working_hours_policy);
            if slots.len() > 0 {
                return DaysStep::Ask(DaysScan { next: next + 1, end, asked: Some(day), days }, slots);
            }
            next += 1;
        }
        DaysStep::Done(days)
    }

    /// Takes the store's answer to the question that the search has asked:
    /// where a slot of that day has a free seat, the day is added to the days
    /// found. Without a question the answer changes nothing.
    pub fn answer(&self, scan: DaysScan, free: bool) -> (after: DaysScan)
        ensures
            after.next_spec() == scan.next_spec(),
            after.end_spec() == scan.end_spec(),
            after.asked_spec() is None,
            after.found() == match scan.asked_spec() {
                Some(day) => if free {
                    scan.found().push(day)
                } else {
                    scan.found()
                },
                None => scan.found(),
            },
    {
        proof {
            use_type_invariant(&scan);
        }
        let DaysScan { next, end, asked, days } = scan;
        let mut days: Vec<Date> = days;
        if let Some(day) = asked {
            if free {
                days.push(day);
            }
        }
        DaysScan { next, end, asked: None, days }
    }
}

} // verus!
