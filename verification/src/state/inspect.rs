//! Cursor of the Inspect screen's fields table.
use vstd::prelude::*;

verus! {

/// Tracks cursor position in the Inspect screen fields table.
#[derive(Debug)]
pub struct InspectState {
    /// Selected row.
    pub selected: usize,
}

impl Default for InspectState {
    fn default() -> (s: Self)
        ensures
            s.selected == 0,
    {
        InspectState { selected: 0 }
    }
}

impl InspectState {
    /// Resets cursor to top.
    pub fn reset(&mut self)
        ensures
            final(self).selected == 0,
    {
        self.selected = 0;
    }

    /// Moves cursor down within `max` visible items, stopping at the last one.
    pub fn move_down(&mut self, max: usize)
        ensures
            final(self).selected == if max == 0 {
                old(self).selected as int
            } else if old(self).selected + 1 < max - 1 {
                old(self).selected + 1
            } else {
                max - 1
            },
    {
        if max > 0 {
            self.selected = if self.selected < max - 1 {
                self.selected + 1
            } else {
                max - 1
            };
        }
    }

    /// Moves cursor up, stops at 0.
    pub fn move_up(&mut self)
        ensures
            final(self).selected == if old(self).selected == 0 {
                0
            } else {
                old(self).selected - 1
            },
    {
        self.selected = if self.selected > 0 {
            self.selected - 1
        } else {
            0
        };
    }

    /// Clamps cursor after the visible list shrinks (e.g. a search filter
    /// narrows results).
    pub fn clamp(&mut self, max: usize)
        ensures
            final(self).selected == if max == 0 {
                0
            } else if old(self).selected < max - 1 {
                old(self).selected as int
            } else {
                max - 1
            },
    {
        if max == 0 {
            self.selected = 0;
        } else {
            self.selected = if self.selected < max - 1 {
                self.selected
            } else {
                max - 1
            };
        }
    }
}

} // verus!
