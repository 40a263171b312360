use crate::domain::models::citizenship::Citizenship;
use vstd::prelude::*;

verus! {

/// How many days after arrival a user of a given citizenship may still book
/// a service that has a deadline.
pub trait DeadlinePolicy {
    /// The number of days that the policy grants to `citizenship`.
    spec fn deadline_spec(&self, citizenship: Citizenship) -> u64;

    /// The number of days that the policy grants to `citizenship`.
    fn deadline(&self, citizenship: &Citizenship) -> (days: u64)
        ensures
            days == self.deadline_spec(*citizenship),
    ;
}

/// The deadlines that the office has set: 15 days for Tajikistan and
/// Uzbekistan, 30 for Kazakhstan, Kyrgyzstan and Armenia, 90 for Belarus and
/// Ukraine, and 7 for every other country.
#[derive(Default)]
pub struct StandardDeadlinePolicy;

impl DeadlinePolicy for StandardDeadlinePolicy {
    open spec fn deadline_spec(&self, citizenship: Citizenship) -> u64 {
        match citizenship {
            Citizenship::Tajikistan | Citizenship::Uzbekistan => 15,
            Citizenship::Kazakhstan | Citizenship::Kyrgyzstan | Citizenship::Armenia => 30,
            Citizenship::Belarus | Citizenship::Ukraine => 90,
            Citizenship::Other(_) => 7,
        }
    }

    fn deadline(&self, citizenship: &Citizenship) -> (days: u64) {
        match citizenship {
            Citizenship::Tajikistan | Citizenship::Uzbekistan => 15,
            Citizenship::Kazakhstan | Citizenship::Kyrgyzstan | Citizenship::Armenia => 30,
            Citizenship::Belarus | Citizenship::Ukraine => 90,
            Citizenship::Other(_) => 7,
        }
    }
}

} // verus!
