//! The operations behind the guard, one for each route. Each takes the
//! context that the guard attached and answers with a value or an `Error`;
//! turning that into a response is left to the caller.

pub mod access;
pub mod auth;
pub mod connector;
pub mod dataset;
pub mod org;
pub mod team;
pub mod user;
