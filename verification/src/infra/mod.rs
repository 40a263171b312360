//! What stands between the use cases and the store.

pub mod mock_admin_provider;
pub mod postgres;

pub use mock_admin_provider::MockAdminProvider;
