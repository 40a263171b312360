//! Calendar dates, times of day, instants and durations as plain integers.

pub mod calendar;
pub mod date;
pub mod duration;
pub mod instant;
pub mod time_of_day;
pub mod weekday;

pub use date::Date;
pub use duration::Duration;
pub use instant::Instant;
pub use time_of_day::TimeOfDay;
pub use weekday::Weekday;
