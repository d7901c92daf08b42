//! Vim-style modal state for the TUI.
use vstd::prelude::*;

verus! {

/// Vim-style modal state for the TUI.
#[derive(Debug, Clone, PartialEq, Eq, Structural)]
pub enum AppMode {
    /// Navigating.
    Normal,
    /// Typing into a form.
    Insert,
    /// Typing a command or SQL.
    Command,
    /// Selecting.
    Visual,
    /// Viewing a result.
    Result,
    /// Typing a search query.
    Search,
    /// Reading the key help.
    Help,
}

impl Default for AppMode {
    fn default() -> (m: Self)
        ensures
            m == AppMode::Normal,
    {
        AppMode::Normal
    }
}

} // verus!
