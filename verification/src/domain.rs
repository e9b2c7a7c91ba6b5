//! The entities of the system and the operations on them.

pub mod auth;
pub mod common;
pub mod connector;
pub mod dataset;
pub mod org;
pub mod postgresconnector;
pub mod session;
pub mod team;
pub mod user;
