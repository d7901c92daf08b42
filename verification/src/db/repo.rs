//! Shapes of the data exchanged with database backends.

pub mod db_repo;
pub mod sql_repo;
pub mod tables_repo;
