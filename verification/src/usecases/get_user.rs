use crate::domain::error::Error;
use crate::domain::models::user::User;
use crate::usecases::dto::UserDTO;
use vstd::prelude::*;

verus! {

/// Shows a user, from what the store says of them.
#[derive(Clone, Copy, Debug, Default)]
pub struct GetUserUseCase;

impl GetUserUseCase {
    /// The use case.
    pub fn new() -> (r: Self) {
        GetUserUseCase
    }

    /// What callers see of the user, given `found`, what the store answered
    /// when asked for the user; a failure of the store stays as it is.
    pub fn user(&self, found: Result<User, Error>) -> (r: Result<UserDTO, Error>)
        ensures
            match found {
                Ok(user) => r matches Ok(dto) && dto.shows(user),
                Err(e) => r == Err::<UserDTO, Error>(e),
            },
    {
        match found {
            Ok(user) => Ok(UserDTO::from_user(&user)),
            Err(err) => Err(err),
        }
    }
}

} // verus!
