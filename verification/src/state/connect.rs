//! Selection state of the saved-connections list.
use crate::state::connection::wrapped_next;
use vstd::prelude::*;

verus! {

/// Selection and error message of the connections list.
#[derive(Debug)]
pub struct ConnectState {
    /// Selected row.
    pub selected: usize,
    /// Connection error to show.
    pub error: Option<String>,
}

impl Default for ConnectState {
    fn default() -> (s: Self)
        ensures
            s.selected == 0,
            s.error.is_none(),
    {
        ConnectState { selected: 0, error: None }
    }
}

impl ConnectState {
    /// Moves selection down, wrapping around when reaching the end.
    pub fn select_next(&mut self, len: usize)
        ensures
            final(self).selected == wrapped_next(old(self).selected as int, len as int),
            final(self).error == old(self).error,
    {
        if len == 0 {
            return;
        }
        self.selected = ((self.selected as u128 + 1) % len as u128) as usize;
    }

    /// Moves selection up, stopping at index 0.
    pub fn select_prev(&mut self, len: usize)
        ensures
            final(self).selected == stepped_back(old(self).selected as int, len as int),
            final(self).error == old(self).error,
    {
        if len == 0 {
            return;
        }
        self.selected = if self.selected > 0 {
            self.selected - 1
        } else {
            0
        };
    }
}

/// The row above `selected` in a list of `len` rows, staying on the first.
pub open spec fn stepped_back(selected: int, len: int) -> int {
    if len == 0 || selected == 0 {
        selected
    } else {
        selected - 1
    }
}

/// In the saved-connections list, both moves keep a selection inside the
/// list, and moving up undoes moving down from any row but the last.
pub proof fn law_selection_moves(selected: int, len: int)
    requires
        0 <= selected < len,
    ensures
        0 <= wrapped_next(selected, len) < len,
        0 <= stepped_back(selected, len) < len,
        selected + 1 < len ==> stepped_back(wrapped_next(selected, len), len) == selected,
{
    if selected + 1 < len {
        vstd::arithmetic::div_mod::lemma_small_mod((selected + 1) as nat, len as nat);
    } else {
        vstd::arithmetic::div_mod::lemma_mod_self_0(len);
    }
}

} // verus!
