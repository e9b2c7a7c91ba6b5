//! The single-table storage layer: attribute records, composite keys, the
//! entity codec and the table itself.

pub mod config;
pub mod conversions;
pub mod json;
pub mod keys;
pub mod record;
pub mod store;
pub mod table;
