use crate::domain::error::Error;
use crate::domain::interfaces::AdminProvider;
use crate::domain::models::user::UserID;
use vstd::prelude::*;

verus! {

/// Tells whether a user administers the schedule.
pub struct CheckAdminUseCase<P> {
    pub(crate) provider: P,
}

impl<P: AdminProvider> CheckAdminUseCase<P> {
    /// The provider that knows the administrators.
    pub open(crate) spec fn provider_spec(&self) -> P {
        self.provider
    }

    /// A check against `provider`.
    pub fn new(provider: P) -> (r: Self)
        ensures
            r.provider_spec() == provider,
    {
        Self { provider }
    }

    /// Whether the user `id` is an administrator: the answer that the
    /// provider gives when it is asked about `id`, be it a yes, a no or a
    /// failure, handed on as it is.
    pub fn is_admin(&self, id: UserID) -> (r: Result<bool, Error>)
        ensures
            call_ensures(P::is_admin, (&self.provider_spec(), id), r),
            r matches Ok(admin) ==> admin == self.provider_spec().is_admin_spec(id),
    {
        self.provider.is_admin(id)
    }
}

} // verus!
