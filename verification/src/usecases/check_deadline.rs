use crate::domain::models::service::Service;
use crate::domain::models::user::{User, UserID};
use crate::domain::services::deadline_policy::DeadlinePolicy;
use crate::time::Date;
use vstd::prelude::*;

verus! {

/// Decides whether a user may still book a service.
pub struct CheckDeadlineUseCase<DP> {
    pub(crate) deadline_policy: DP,
}

/// What the check needs before it can answer.
#[derive(Debug, Clone, Copy, PartialEq, Eq, Structural)]
pub enum DeadlineCheck {
    /// Nothing: the service has no deadline, so the user may book.
    Eligible,
    /// The user with this identity, from the store, and today's date.
    AskUser(UserID),
}

impl<DP: DeadlinePolicy> CheckDeadlineUseCase<DP> {
    /// The policy that sets the deadlines.
    pub open(crate) spec fn policy(&self) -> DP {
        self.deadline_policy
    }

    /// The last day, counted from 1 January 1970, on which `user` may book a
    /// service that has a deadline: the day of arrival plus the days that the
    /// policy grants to the user's citizenship.
    pub open spec fn cutoff(&self, user: User) -> int {
        user.arrival_date_spec()@ + self.policy().deadline_spec(user.citizenship_spec())
    }

    /// Whether `user` may book `service` on the day `today`: always where
    /// the service has no deadline, else up to and including the cutoff.
    pub open spec fn eligible(&self, user: User, today: Date, service: Service) -> bool {
        !service.has_deadline_spec() || today@ <= self.cutoff(user)
    }

    /// A check under the policy `deadline_policy`.
    pub fn new(deadline_policy: DP) -> (r: Self)
        ensures
            r.policy() == deadline_policy,
    {
        Self { deadline_policy }
    }

    /// What the check of `service` for the user `user_id` needs first.
    pub fn begin(&self, user_id: UserID, service: Service) -> (r: DeadlineCheck)
        ensures
            r == if service.has_deadline_spec() {
                DeadlineCheck::AskUser(user_id)
            } else {
                DeadlineCheck::Eligible
            },
    {
        if service.has_deadline() {
            DeadlineCheck::AskUser(user_id)
        } else {
            DeadlineCheck::Eligible
        }
    }

    /// Whether `user` may book `service` on the day `today`.
    pub fn check_deadline(&self, user: &User, today: Date, service: Service) -> (r: bool)
        ensures
            r == self.eligible(*user, today, service),
    {
        if !service.has_deadline() {
            return true;
        }
        let granted: u64 = self.deadline_policy.deadline(user.citizenship());
        let cutoff: i128 = user.arrival_date().to_epoch_days() as i128 + granted as i128;
        today.to_epoch_days() as i128 <= cutoff
    }
}

} // verus!
