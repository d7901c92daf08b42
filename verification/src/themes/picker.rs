//! Keyboard picker for choosing a built-in theme by name.
use crate::order::{same_elements, sorted_le, sorted_strings, string_views};
use crate::state::app::filter_names;
use crate::state::search::matches_spec;
use crate::text::{push_char, str_contains, string_clear, string_pop, to_lowercase};
use vstd::prelude::*;

verus! {

/// Tracks keyboard picker state for selecting a built-in theme.
#[derive(Debug, Clone)]
pub struct ThemePickerState {
    /// Whether the theme picker is currently visible.
    pub open: bool,
    /// Current filter query.
    pub query: String,
    /// Selected index within the filtered theme list.
    pub selected: usize,
    names: Vec<String>,
}

impl Default for ThemePickerState {
    fn default() -> (s: Self)
        ensures
            !s.is_open(),
            s.query_text().len() == 0,
            s.selection() == 0,
            s.names().len() == 0,
    {
        ThemePickerState { open: false, query: String::new(), selected: 0, names: Vec::new() }
    }
}

/// `name` matches the picker query `query`.
fn name_matches(query: &str, name: &str) -> (r: bool)
    ensures
        r == matches_spec(query@, name@),
{
    if query.unicode_len() == 0 {
        return true;
    }
    let n = to_lowercase(name);
    let q = to_lowercase(query);
    str_contains(n.as_str(), q.as_str())
}

impl ThemePickerState {
    /// The available theme names, in display order.
    pub closed spec fn names(&self) -> Seq<Seq<char>> {
        string_views(self.names@)
    }

    /// Whether the picker is visible.
    pub closed spec fn is_open(&self) -> bool {
        self.open
    }

    /// The filter query.
    pub closed spec fn query_text(&self) -> Seq<char> {
        self.query@
    }

    /// The selected index within the filtered list.
    pub closed spec fn selection(&self) -> usize {
        self.selected
    }

    /// The names the query matches, in display order.
    pub open spec fn visible(&self) -> Seq<Seq<char>> {
        filter_names(self.names(), self.query_text())
    }

    /// Creates picker state from theme names sorted for display.
    pub fn new(names: Vec<String>) -> (s: Self)
        ensures
            !s.is_open(),
            s.query_text().len() == 0,
            s.selection() == 0,
            sorted_le(s.names()),
            same_elements(s.names(), string_views(names@)),
    {
        ThemePickerState {
            open: false,
            query: String::new(),
            selected: 0,
            names: sorted_strings(names),
        }
    }

    /// Whether the picker is visible.
    pub fn is_visible(&self) -> (r: bool)
        ensures
            r == self.is_open(),
    {
        self.open
    }

    /// Opens the picker and resets transient selection state.
    pub fn open(&mut self)
        ensures
            final(self).is_open(),
            final(self).query_text().len() == 0,
            final(self).selection() == 0,
            final(self).names() == old(self).names(),
    {
        self.open = true;
        string_clear(&mut self.query);
        self.selected = 0;
    }

    /// Closes the picker and resets transient selection state.
    pub fn cancel(&mut self)
        ensures
            !final(self).is_open(),
            final(self).query_text().len() == 0,
            final(self).selection() == 0,
            final(self).names() == old(self).names(),
    {
        self.open = false;
        string_clear(&mut self.query);
        self.selected = 0;
    }

    /// Appends a character to the filter query and clamps selection.
    pub fn push_query(&mut self, c: char)
        ensures
            final(self).query_text() == old(self).query_text().push(c),
            final(self).is_open() == old(self).is_open(),
            final(self).names() == old(self).names(),
            final(self).selection() == clamped(old(self).selection(), final(self).visible().len()),
    {
        push_char(&mut self.query, c);
        self.clamp_selected();
    }

    /// Removes the final character from the filter query and clamps selection.
    pub fn pop_query(&mut self)
        ensures
            final(self).query_text() == if old(self).query_text().len() == 0 {
                old(self).query_text()
            } else {
                old(self).query_text().drop_last()
            },
            final(self).is_open() == old(self).is_open(),
            final(self).names() == old(self).names(),
            final(self).selection() == clamped(old(self).selection(), final(self).visible().len()),
    {
        string_pop(&mut self.query);
        self.clamp_selected();
    }

    /// Moves selection to the next filtered name, wrapping at the end.
    pub fn move_next(&mut self)
        requires
            old(self).selection() < usize::MAX,
        ensures
            final(self).selection() == if old(self).visible().len() == 0 {
                0
            } else {
                ((old(self).selection() + 1) % (old(self).visible().len() as int)) as usize
            },
            final(self).query_text() == old(self).query_text(),
            final(self).is_open() == old(self).is_open(),
            final(self).names() == old(self).names(),
    {
        let count = self.filtered_count();
        if count == 0 {
            self.selected = 0;
            return;
        }
        self.selected = (self.selected + 1) % count;
    }

    /// Moves selection to the previous filtered name, wrapping at the start.
    pub fn move_prev(&mut self)
        ensures
            final(self).selection() == if old(self).visible().len() == 0 {
                0
            } else if old(self).selection() == 0 {
                (old(self).visible().len() - 1) as usize
            } else {
                (old(self).selection() - 1) as usize
            },
            final(self).query_text() == old(self).query_text(),
            final(self).is_open() == old(self).is_open(),
            final(self).names() == old(self).names(),
    {
        let count = self.filtered_count();
        if count == 0 {
            self.selected = 0;
            return;
        }
        self.selected = if self.selected == 0 {
            count - 1
        } else {
            self.selected - 1
        };
    }

    /// Returns sorted theme names containing the current query, ignoring case.
    pub fn filtered_names(&self) -> (r: Vec<&str>)
        ensures
            r@.map_values(|s: &str| s@) == self.visible(),
    {
        let n = self.names.len();
        let ghost nv = self.names();
        let mut out: Vec<&str> = Vec::new();
        let mut i: usize = 0;
        while i < n
            invariant
                n == self.names@.len(),
                nv == self.names(),
                nv == string_views(self.names@),
                i <= n,
                out@.map_values(|s: &str| s@) == filter_names(
                    nv.subrange(0, i as int),
                    self.query@,
                ),
            decreases n - i,
        {
            assert(nv.subrange(0, i + 1).drop_last() =~= nv.subrange(0, i as int));
            if name_matches(self.query.as_str(), self.names[i].as_str()) {
                let ghost before = out@;
                out.push(self.names[i].as_str());
                assert(out@.map_values(|s: &str| s@) =~= before.map_values(|s: &str| s@).push(
                    nv[i as int],
                ));
            }
            i += 1;
        }
        assert(nv.subrange(0, n as int) =~= nv);
        out
    }

    /// Returns the selected filtered theme name.
    pub fn selected_name(&self) -> (r: Option<&str>)
        ensures
            match r {
                Some(s) => self.selection() < self.visible().len() && s@ == self.visible()[self.selection() as int],
                None => self.selection() >= self.visible().len(),
            },
    {
        let names = self.filtered_names();
        if self.selected < names.len() {
            let s = names[self.selected];
            assert(s@ == names@.map_values(|s: &str| s@)[self.selected as int]);
            Some(s)
        } else {
            None
        }
    }

    /// Replaces available theme names, sorts them, and clamps selection.
    pub fn set_names(&mut self, names: Vec<String>)
        ensures
            sorted_le(final(self).names()),
            same_elements(final(self).names(), string_views(names@)),
            final(self).query_text() == old(self).query_text(),
            final(self).is_open() == old(self).is_open(),
            final(self).selection() == clamped(old(self).selection(), final(self).visible().len()),
    {
        self.names = names;
        self.sort_names();
        self.clamp_selected();
    }

    /// Sorts the names by code point.
    fn sort_names(&mut self)
        ensures
            sorted_le(final(self).names()),
            same_elements(final(self).names(), old(self).names()),
            final(self).query_text() == old(self).query_text(),
            final(self).is_open() == old(self).is_open(),
            final(self).selection() == old(self).selection(),
    {
        let mut names: Vec<String> = Vec::new();
        std::mem::swap(&mut names, &mut self.names);
        self.names = sorted_strings(names);
    }

    /// Number of names the query matches.
    fn filtered_count(&self) -> (n: usize)
        ensures
            n == self.visible().len(),
    {
        let names = self.filtered_names();
        names.len()
    }

    /// Keeps the selection inside the filtered list (0 when it is empty).
    fn clamp_selected(&mut self)
        ensures
            final(self).selection() == clamped(old(self).selection(), old(self).visible().len()),
            final(self).query_text() == old(self).query_text(),
            final(self).is_open() == old(self).is_open(),
            final(self).names() == old(self).names(),
    {
        let count = self.filtered_count();
        if count == 0 {
            self.selected = 0;
            return;
        }
        if self.selected > count - 1 {
            self.selected = count - 1;
        }
    }
}

/// `selected` limited to the last of `count` entries, or 0 when there are none.
pub open spec fn clamped(selected: usize, count: nat) -> usize {
    if count == 0 {
        0
    } else if selected > count - 1 {
        (count - 1) as usize
    } else {
        selected
    }
}

/// After filtering, the selection names one of the `count` matching themes,
/// or is 0 when none matches; a selection that already named one is kept,
/// so clamping twice is clamping once.
pub proof fn law_clamped_selection(selected: usize, count: nat)
    requires
        count <= usize::MAX,
    ensures
        count == 0 ==> clamped(selected, count) == 0,
        count > 0 ==> clamped(selected, count) < count,
        selected < count ==> clamped(selected, count) == selected,
        clamped(clamped(selected, count), count) == clamped(selected, count),
{
}

/// The names a picker shows are no more than it holds, and those fit a `Vec`.
pub proof fn lemma_visible_len(p: ThemePickerState)
    ensures
        p.visible().len() <= p.names().len() <= usize::MAX,
{
    assert(p.names@.len() == p.names.len());
    crate::state::app::lemma_filter_names_len(p.names(), p.query_text());
}

} // verus!
