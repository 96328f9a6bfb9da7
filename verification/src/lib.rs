//! A typed query-construction and relation-loading layer for relational
//! databases: composable condition expressions, a select builder that folds
//! conditions and pseudo-joins into one SQL statement with ordered bound
//! parameters, a batched relation loader, and a change-tracking record view.

pub mod entity;
pub mod query;
pub mod sqlparse;
