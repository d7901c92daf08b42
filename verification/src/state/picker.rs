//! Generic filterable picker: open flag, selected row and filter query.
use crate::text::{push_char, string_clear, string_pop};
use vstd::prelude::*;

verus! {

/// State of a filterable picker.
#[derive(Debug, Clone)]
pub struct PickerState {
    /// Whether the picker is shown.
    pub open: bool,
    /// Selected row.
    pub selected: usize,
    /// Filter query.
    pub query: String,
}

impl Default for PickerState {
    fn default() -> (s: Self)
        ensures
            !s.open,
            s.selected == 0,
            s.query@.len() == 0,
    {
        PickerState { open: false, selected: 0, query: String::new() }
    }
}

impl PickerState {
    /// Shows the picker with an empty query and the first row selected.
    pub fn open(&mut self)
        ensures
            final(self).open,
            final(self).selected == 0,
            final(self).query@.len() == 0,
    {
        self.open = true;
        self.selected = 0;
        string_clear(&mut self.query);
    }

    /// Hides the picker, keeping query and selection.
    pub fn cancel(&mut self)
        ensures
            !final(self).open,
            final(self).selected == old(self).selected,
            final(self).query == old(self).query,
    {
        self.open = false;
    }

    /// Moves selection down, stopping at the last of `len` rows.
    pub fn move_next(&mut self, len: usize)
        ensures
            final(self).selected == if len == 0 {
                0
            } else if old(self).selected + 1 < len - 1 {
                old(self).selected + 1
            } else {
                len - 1
            },
            final(self).open == old(self).open,
            final(self).query == old(self).query,
    {
        if len == 0 {
            self.selected = 0;
            return;
        }
        self.selected = if self.selected < len - 1 {
            self.selected + 1
        } else {
            len - 1
        };
    }

    /// Moves selection up, stopping at 0.
    pub fn move_prev(&mut self)
        ensures
            final(self).selected == if old(self).selected == 0 {
                0
            } else {
                old(self).selected - 1
            },
            final(self).open == old(self).open,
            final(self).query == old(self).query,
    {
        self.selected = if self.selected > 0 {
            self.selected - 1
        } else {
            0
        };
    }

    /// Appends `ch` to the query and selects the first row.
    pub fn push_query_char(&mut self, ch: char)
        ensures
            final(self).query@ == old(self).query@.push(ch),
            final(self).selected == 0,
            final(self).open == old(self).open,
    {
        push_char(&mut self.query, ch);
        self.selected = 0;
    }

    /// Removes the last query character, if any, and selects the first row.
    pub fn pop_query(&mut self)
        ensures
            final(self).query@ == if old(self).query@.len() > 0 {
                old(self).query@.drop_last()
            } else {
                old(self).query@
            },
            final(self).selected == 0,
            final(self).open == old(self).open,
    {
        string_pop(&mut self.query);
        self.selected = 0;
    }
}

} // verus!
