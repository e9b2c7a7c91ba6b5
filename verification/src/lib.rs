//! A multi-tenant backend: sessions, users, organizations, teams, connectors
//! and datasets, all kept as attribute records in one table.
//!
//! The layers, from the bottom:
//!
//! - `data::record`, `data::keys`: attribute records and tagged keys;
//! - `data::conversions`: the codec between entities and records, with the
//!   proof that decoding undoes encoding for every entity;
//! - `data::store`: what a table is, as the trait `EntityStore`, and
//!   `data::table`: a table held in memory;
//! - `data::config`: the repositories, written once for any table;
//! - `domain`: the entities and their operations, the guard in
//!   `domain::auth` among them;
//! - `routes`: the operations behind the guard, with the role each asks for;
//! - `laws`: what holds across operations.
//!
//! Everything here is verified except the calls into other crates, which
//! stand in small functions of their own and are taken on trust as their
//! comments say: JSON text by `serde_json` in `data::json`, password hashes
//! by `argon2` in `domain::user`, random ids by `rand` in `domain::common`,
//! and the making of a hash map from pairs in `domain::postgresconnector`.

pub mod data;
pub mod domain;
pub mod error;
pub mod laws;
pub mod routes;
pub mod text;
