//! A personal contact book's repository layer: contact and metadata entities,
//! partial-update patches, repository contracts, a verified in-memory backend,
//! and deterministic test doubles for both repositories.

pub mod db;
pub mod errors;
pub mod models;
pub mod time;
