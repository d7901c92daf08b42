//! The `/` search bar: a query that filters lists case-insensitively.
use crate::text::{contains_seq, lowercase, str_contains, to_lowercase};
use vstd::prelude::*;

verus! {

/// Holds the state of the `/` search bar.
#[derive(Debug)]
pub struct SearchState {
    /// Filter text.
    pub query: String,
    /// `true` while the search bar is visible and accepting keyboard input.
    pub active: bool,
}

impl Default for SearchState {
    fn default() -> (s: Self)
        ensures
            s.query@.len() == 0,
            !s.active,
    {
        SearchState { query: String::new(), active: false }
    }
}

/// `text` matches `query`: the query is empty or, both lowercased, occurs in the
/// text.
pub open spec fn matches_spec(query: Seq<char>, text: Seq<char>) -> bool {
    query.len() == 0 || contains_seq(lowercase(text), lowercase(query))
}

impl SearchState {
    /// Activates the search bar.
    pub fn open(&mut self)
        ensures
            final(self).active,
            final(self).query == old(self).query,
    {
        self.active = true;
    }

    /// Deactivates the search bar but keeps the current query as a filter.
    pub fn close(&mut self)
        ensures
            !final(self).active,
            final(self).query == old(self).query,
    {
        self.active = false;
    }

    /// Clears the query and deactivates the search bar.
    pub fn reset(&mut self)
        ensures
            final(self).query@.len() == 0,
            !final(self).active,
    {
        *self = SearchState::default();
    }

    /// Whether `text` contains the query, ignoring case; always true for an
    /// empty query.
    pub fn matches(&self, text: &str) -> (r: bool)
        ensures
            r == matches_spec(self.query@, text@),
    {
        if self.query.unicode_len() == 0 {
            return true;
        }
        let t = to_lowercase(text);
        let q = to_lowercase(self.query.as_str());
        str_contains(t.as_str(), q.as_str())
    }
}

} // verus!
