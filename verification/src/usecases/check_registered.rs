use crate::domain::error::Error;
use crate::domain::models::user::User;
use vstd::prelude::*;

verus! {

/// Tells whether a user is registered, from what the store says of them.
#[derive(Clone, Copy, Debug, Default)]
pub struct CheckRegisteredUseCase;

impl CheckRegisteredUseCase {
    /// What the store's answer means: a user that was found is registered,
    /// one that is not known is not, and any other failure stays a failure.
    pub open spec fn registered(found: Result<User, Error>) -> Result<bool, Error> {
        match found {
            Ok(_) => Ok(true),
            Err(Error::UserNotFound(_)) => Ok(false),
            Err(e) => Err(e),
        }
    }

    /// The check.
    pub fn new() -> (r: Self) {
        CheckRegisteredUseCase
    }

    /// Whether the user is registered, given `found`, what the store
    /// answered when asked for the user.
    pub fn is_registered(&self, found: Result<User, Error>) -> (r: Result<bool, Error>)
        ensures
            r == Self::registered(found),
    {
        match found {
            Ok(_) => Ok(true),
            Err(Error::UserNotFound(_)) => Ok(false),
            Err(err) => Err(err),
        }
    }
}

} // verus!
