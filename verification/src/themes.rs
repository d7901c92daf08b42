//! Color themes: parsing palettes, choosing the active theme and the theme
//! picker.
pub mod builtin;
pub mod palette;
pub mod picker;
pub mod storage;
