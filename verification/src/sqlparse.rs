//! Schema introspection support: reading CREATE TABLE definitions into a
//! portable schema description.

pub mod db;
pub mod query;
pub mod schema;
