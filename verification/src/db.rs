//! Database-facing data: result and metadata types, error reporting, and the
//! SQL text the drivers send.

pub mod mysql;
pub mod postgres;
pub mod repo;
pub mod statement;
pub mod table_sql;
