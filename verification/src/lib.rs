//! Verified core of a terminal database client: connection configuration,
//! navigation and editor state machines, pagination, theme handling and
//! text formatting of query results.

pub mod order;
pub mod text;
pub mod state;
pub mod db;
pub mod config;
pub mod themes;
pub mod ui;
pub mod handlers;
