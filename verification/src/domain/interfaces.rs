use crate::domain::error::Error;
use crate::domain::models::user::UserID;
use vstd::prelude::*;

verus! {

/// Knows who administers the office's schedule.
pub trait AdminProvider {
    /// Whether the user `id` is an administrator.
    spec fn is_admin_spec(&self, id: UserID) -> bool;

    /// Whether the user `id` is an administrator.
    fn is_admin(&self, id: UserID) -> (r: Result<bool, Error>)
        ensures
            r matches Ok(admin) ==> admin == self.is_admin_spec(id),
    ;
}

} // verus!
