//! MySQL: the SQL text sent for queries.
pub mod sql;
