//! Data access for people of a federated platform: an in-memory relational
//! store of persons, their follow edges and the rows that reference them,
//! with verified create, read, update, upsert, soft-delete and follow logic.

pub mod error;
pub mod laws;
pub mod lookup;
pub mod profile_url;
pub mod source;
pub mod store;
pub mod text;
pub mod clock;
pub mod community;
