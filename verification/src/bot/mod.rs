//! What the chat shows of the schedule.

pub mod csv_lines;
pub mod keyboards;
pub mod report;

pub use keyboards::{service_from_str, service_to_str};
pub use report::generate_csv;
