//! Text layout used by the screens: formatted result tables, the content of
//! screens as toned text segments, and sizing rules.
pub mod bars;
pub mod editor;
pub mod connect;
pub mod database;
pub mod format;
pub mod help;
pub mod highlight;
pub mod inspect;
pub mod layout;
pub mod picker;
pub mod popup;
pub mod records;
pub mod view;
