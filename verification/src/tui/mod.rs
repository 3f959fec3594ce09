//! The state of the terminal front end.

pub mod app;
pub mod keys;
