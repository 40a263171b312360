//! The policies that decide working hours and deadlines, and the factory
//! that turns a day into slots.

pub mod deadline_policy;
pub mod slots_factory;
pub mod working_hours_policy;

pub use deadline_policy::{DeadlinePolicy, StandardDeadlinePolicy};
pub use slots_factory::{FixedSlotsFactory, SlotsFactory};
pub use working_hours_policy::{
    Mon2FriWorkingHoursPolicy, Mon2ThuAndFriWithLunchWorkingHoursPolicy, WorkingHoursPolicy,
};
