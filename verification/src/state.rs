//! UI state machines: navigation, pickers, search, SQL editor, records pager.

pub mod app;
pub mod connect;
pub mod connection;
pub mod inspect;
pub mod mode;
pub mod navigation;
pub mod picker;
pub mod records;
pub mod router;
pub mod search;
pub mod sql_input;
