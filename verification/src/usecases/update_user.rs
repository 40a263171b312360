use crate::domain::models::citizenship::Citizenship;
use crate::domain::models::user::{OnlyCyrillic, OnlyLatin, User};
use crate::time::Date;
use vstd::prelude::*;

verus! {

/// Changes one particular of a user that the store has handed out, for the
/// store to keep.
#[derive(Clone, Copy, Debug, Default)]
pub struct UpdateUserUseCase;

impl UpdateUserUseCase {
    /// The use case.
    pub fn new() -> (r: Self) {
        UpdateUserUseCase
    }

    /// `user` with the full name in the Latin script replaced by `name`.
    pub fn update_name_lat(&self, user: User, name: OnlyLatin) -> (r: User)
        ensures
            r.full_name_lat_spec() == name,
            r.id_spec() == user.id_spec(),
            r.username_spec() == user.username_spec(),
            r.full_name_cyr_spec() == user.full_name_cyr_spec(),
            r.citizenship_spec() == user.citizenship_spec(),
            r.arrival_date_spec() == user.arrival_date_spec(),
    {
        let mut user: User = user;
        user.set_full_name_lat(name);
        user
    }

    /// `user` with the full name in the Cyrillic script replaced by `name`.
    pub fn update_name_cyr(&self, user: User, name: OnlyCyrillic) -> (r: User)
        ensures
            r.full_name_cyr_spec() == name,
            r.id_spec() == user.id_spec(),
            r.username_spec() == user.username_spec(),
            r.full_name_lat_spec() == user.full_name_lat_spec(),
            r.citizenship_spec() == user.citizenship_spec(),
            r.arrival_date_spec() == user.arrival_date_spec(),
    {
        let mut user: User = user;
        user.set_full_name_cyr(name);
        user
    }

    /// `user` with the citizenship replaced by `citizenship`.
    pub fn update_citizenship(&self, user: User, citizenship: Citizenship) -> (r: User)
        ensures
            r.citizenship_spec() == citizenship,
            r.id_spec() == user.id_spec(),
            r.username_spec() == user.username_spec(),
            r.full_name_lat_spec() == user.full_name_lat_spec(),
            r.full_name_cyr_spec() == user.full_name_cyr_spec(),
            r.arrival_date_spec() == user.arrival_date_spec(),
    {
        let mut user: User = user;
        user.set_citizenship(citizenship);
        user
    }

    /// `user` with the day of arrival replaced by `arrival_date`.
    pub fn update_arrival_date(&self, user: User, arrival_date: Date) -> (r: User)
        ensures
            r.arrival_date_spec() == arrival_date,
            r.id_spec() == user.id_spec(),
            r.username_spec() == user.username_spec(),
            r.full_name_lat_spec() == user.full_name_lat_spec(),
            r.full_name_cyr_spec() == user.full_name_cyr_spec(),
            r.citizenship_spec() == user.citizenship_spec(),
    {
        let mut user: User = user;
        user.set_arrival_date(arrival_date);
        user
    }
}

} // verus!
