//! The data that the service exchanges with its callers.

pub mod todo;
