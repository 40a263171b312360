use crate::domain::models::citizenship::Citizenship;
use crate::domain::models::user::{OnlyCyrillic, OnlyLatin, User, UserID, Username};
use crate::time::Date;
use vstd::prelude::*;

verus! {

/// What a user states when registering.
pub struct RegisterUserRequest {
    pub id: UserID,
    pub username: Username,
    pub full_name_lat: OnlyLatin,
    pub full_name_cyr: OnlyCyrillic,
    pub citizenship: Citizenship,
    pub arrival_date: Date,
}

/// Makes a user of a registration, for the store to keep.
#[derive(Clone, Copy, Debug, Default)]
pub struct RegisterUserUseCase;

impl RegisterUserUseCase {
    /// The use case.
    pub fn new() -> (r: Self) {
        RegisterUserUseCase
    }

    /// The user with the particulars of `req`.
    pub fn register(&self, req: RegisterUserRequest) -> (r: User)
        ensures
            r.id_spec() == req.id,
            r.username_spec() == req.username,
            r.full_name_lat_spec() == req.full_name_lat,
            r.full_name_cyr_spec() == req.full_name_cyr,
            r.citizenship_spec() == req.citizenship,
            r.arrival_date_spec() == req.arrival_date,
    {
        User::new(
            req.id,
            req.username,
            req.full_name_lat,
            req.full_name_cyr,
            req.citizenship,
            req.arrival_date,
        )
    }
}

} // verus!
