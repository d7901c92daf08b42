//! PostgreSQL table browsing: rows are routed to a query or a command by the
//! same test as in `sql`.
pub use crate::db::postgres::sql::is_returning_query;
