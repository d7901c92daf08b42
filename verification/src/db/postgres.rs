//! PostgreSQL: the SQL text sent for queries.
pub mod sql;
pub mod tables;
