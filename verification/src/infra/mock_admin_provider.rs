use crate::domain::error::Error;
use crate::domain::interfaces::AdminProvider;
use crate::domain::models::user::UserID;
use vstd::prelude::*;

verus! {

/// Administrators by a list of identities that is fixed when the program
/// starts.
pub struct MockAdminProvider {
    pub(crate) admin_ids: Vec<UserID>,
}

impl MockAdminProvider {
    /// The identities of the administrators.
    pub open(crate) spec fn admin_ids_spec(&self) -> Seq<UserID> {
        self.admin_ids@
    }

    /// A provider for which exactly the users `admin_ids` are
    /// administrators.
    pub fn new(admin_ids: Vec<UserID>) -> (r: Self)
        ensures
            r.admin_ids_spec() == admin_ids@,
    {
        MockAdminProvider { admin_ids }
    }
}

impl AdminProvider for MockAdminProvider {
    open spec fn is_admin_spec(&self, id: UserID) -> bool {
        self.admin_ids_spec().contains(id)
    }

    /// Never fails.
    fn is_admin(&self, id: UserID) -> (r: Result<bool, Error>)
        ensures
            r is Ok,
    {
        let mut i: usize = 0;
        while i < self.admin_ids.len()
            invariant
                i <= self.admin_ids@.len(),
                forall|k: int| 0 <= k < i ==> self.admin_ids@[k] != id,
            decreases self.admin_ids@.len() - i,
        {
            if self.admin_ids[i] == id {
                return Ok(true);
            }
            i += 1;
        }
        Ok(false)
    }
}

} // verus!
