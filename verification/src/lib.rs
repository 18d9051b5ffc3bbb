//! Event schema and publishing for the Kora protocol contracts.

pub mod host;
pub mod types;
pub mod schema;
pub mod events;
pub mod field_laws;
