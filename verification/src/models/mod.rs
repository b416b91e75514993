pub mod coaches;
pub mod enrollments;
pub mod mails;
pub mod notes;
pub mod objectives;
pub mod programs;
pub mod session_users;
pub mod sessions;
pub mod tasks;
pub mod user_programs;
pub mod users;
