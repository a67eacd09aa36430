//! A to-do item service: identifiers, an in-memory item store, the CRUD
//! operations over it, and the replies that an HTTP boundary sends.

pub mod backend;
pub mod error;
pub mod handlers;
pub mod ident;
pub mod laws;
pub mod models;
pub mod reply;
pub mod service;
pub mod store;
