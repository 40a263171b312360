//! The scheduling rules: the data they speak of and the policies that decide.

pub mod error;
pub mod interfaces;
pub mod models;
pub mod services;

pub use error::Error;
