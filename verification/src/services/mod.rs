pub mod enrollments;
pub mod objectives;
pub mod programs;
pub mod sessions;
pub mod tasks;
