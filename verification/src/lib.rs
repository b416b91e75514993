//! Domain core of a coaching-program service: the program hierarchy, the
//! enrollment admission rules, and the task, session and objective lifecycles,
//! all running against an in-memory store that stands for the persistence
//! handle.

pub mod api;
pub mod commons;
pub mod ident;
pub mod laws;
pub mod models;
pub mod services;
pub mod store;
pub mod temporal;
pub mod text;
