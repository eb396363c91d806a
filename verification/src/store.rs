//! Records kept in the session database, and the schema-version refusal.
pub mod knots;
pub mod records;
pub mod schema;
