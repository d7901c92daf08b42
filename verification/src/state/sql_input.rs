//! Multiline SQL editor state: a text buffer with a byte-offset cursor and a
//! bounded, deduplicated query history.
use crate::text::{
    byte_len, char_len_utf8, str_eq, string_clear, string_drain, string_insert, trim, trimmed, utf8,
};
use vstd::prelude::*;
use vstd::utf8::{
    char_is_scalar, encode_scalar, encode_utf8, encode_utf8_valid_utf8, is_char_boundary,
    is_char_boundary_iff_not_is_continuation_byte, is_char_boundary_start_end_of_seq,
    is_continuation_byte, last_continuation_byte, leading_byte_width_1, leading_byte_width_2,
    leading_byte_width_3, leading_byte_width_4, second_last_continuation_byte,
    third_last_continuation_byte, valid_utf8, valid_utf8_concat, valid_utf8_split,
};

verus! {

/// Result of SQL execution displayed in a popup.
#[derive(Debug, Clone)]
pub enum SqlResult {
    /// A command ran and changed this many rows.
    Success { rows_affected: u64 },
    /// Rows were returned but are not displayed.
    Rows { count: usize },
    /// The database reported an error.
    Error(String),
}

/// Largest number of entries kept in the query history.
pub const HISTORY_LIMIT: usize = 100;

/// State for the SQL command input bar.
#[derive(Debug)]
pub struct SqlInputState {
    /// The text being edited.
    pub query: String,
    /// Cursor position as a byte offset into `query`.
    pub cursor_pos: usize,
    /// Whether the editor is open.
    pub active: bool,
    /// The popup result of the last execution.
    pub result: Option<SqlResult>,
    /// Previously executed queries, oldest first.
    pub history: Vec<String>,
    /// Position inside `history` while browsing it.
    pub history_idx: Option<usize>,
}

// ───────────────────────── byte-level model ─────────────────────────

/// The newline byte.
pub open spec fn nl() -> u8 {
    10u8
}

/// Number of newline bytes in `b`.
pub open spec fn count_newlines(b: Seq<u8>) -> nat
    decreases b.len(),
{
    if b.len() == 0 {
        0
    } else {
        count_newlines(b.drop_last()) + if b.last() == nl() {
            1nat
        } else {
            0nat
        }
    }
}

/// Start of the line holding offset `p`: one past the last newline before `p`,
/// or 0.
pub open spec fn line_start(b: Seq<u8>, p: int) -> int
    decreases p,
{
    if p <= 0 {
        0
    } else if b[p - 1] == nl() {
        p
    } else {
        line_start(b, p - 1)
    }
}

/// End of the line holding offset `p`: the first newline at or after `p`, or the
/// end of `b`.
pub open spec fn line_end(b: Seq<u8>, p: int) -> int
    decreases b.len() - p,
{
    if p >= b.len() {
        b.len() as int
    } else if b[p] == nl() {
        p
    } else {
        line_end(b, p + 1)
    }
}

/// Start of the character before offset `p`: the largest character boundary
/// that is at most `p`, or 0.
pub open spec fn boundary_at_or_before(b: Seq<u8>, p: int) -> int
    decreases p,
{
    if p <= 0 {
        0
    } else if is_char_boundary(b, p) {
        p
    } else {
        boundary_at_or_before(b, p - 1)
    }
}

/// `b` with the encoding of `c` inserted at offset `p`.
pub open spec fn with_char_at(b: Seq<u8>, p: int, c: char) -> Seq<u8> {
    b.subrange(0, p) + utf8(seq![c]) + b.subrange(p, b.len() as int)
}

/// Buffer and cursor after Backspace with the cursor at `p`: the character
/// before `p` goes and the cursor moves to where it began; at the start
/// nothing changes.
pub open spec fn backspaced(b: Seq<u8>, p: int) -> (Seq<u8>, int) {
    if p <= 0 {
        (b, p)
    } else {
        let q = boundary_at_or_before(b, p - 1);
        (b.subrange(0, q) + b.subrange(p, b.len() as int), q)
    }
}

/// The smallest character boundary that is at least `p`, capped at the end of `b`.
pub open spec fn boundary_at_or_after(b: Seq<u8>, p: int) -> int
    decreases b.len() - p,
{
    if p >= b.len() {
        b.len() as int
    } else if is_char_boundary(b, p) {
        p
    } else {
        boundary_at_or_after(b, p + 1)
    }
}

/// `s` without the entries equal to `x`, order kept.
pub open spec fn without(s: Seq<Seq<char>>, x: Seq<char>) -> Seq<Seq<char>>
    decreases s.len(),
{
    if s.len() == 0 {
        s
    } else if s.last() == x {
        without(s.drop_last(), x)
    } else {
        without(s.drop_last(), x).push(s.last())
    }
}

/// The characters of each history entry.
pub open spec fn views(h: Seq<String>) -> Seq<Seq<char>> {
    h.map_values(|s: String| s@)
}

/// History after recording `q`: earlier copies of `q` are dropped, `q` goes last,
/// and the oldest entry goes when more than `HISTORY_LIMIT` remain.
pub open spec fn history_after_push(h: Seq<Seq<char>>, q: Seq<char>) -> Seq<Seq<char>> {
    let p = without(h, q).push(q);
    if p.len() > HISTORY_LIMIT {
        p.drop_first()
    } else {
        p
    }
}

/// The history position after moving to an older entry in a history of `n`
/// entries: the newest when not browsing, else one older, stopping at the
/// oldest.
pub open spec fn older_index(idx: Option<usize>, n: int) -> int {
    match idx {
        None => n - 1,
        Some(i) => if i == 0 {
            0
        } else {
            i - 1
        },
    }
}

/// The history position after moving from position `i` to a newer entry in a
/// history of `n` entries; none past the newest, which ends browsing.
pub open spec fn newer_index(i: int, n: int) -> Option<int> {
    if i + 1 >= n {
        None
    } else {
        Some(i + 1)
    }
}

impl Default for SqlInputState {
    fn default() -> (s: Self)
        ensures
            s.query@.len() == 0,
            s.cursor_pos == 0,
            !s.active,
            s.result.is_none(),
            s.history@.len() == 0,
            s.history_idx.is_none(),
    {
        SqlInputState::new()
    }
}

impl SqlInputState {
    /// The UTF-8 bytes of the query.
    pub open spec fn bytes(&self) -> Seq<u8> {
        utf8(self.query@)
    }

    /// The cursor clamped to the end of the query.
    pub open spec fn clamped_cursor(&self) -> int {
        if self.cursor_pos < self.bytes().len() {
            self.cursor_pos as int
        } else {
            self.bytes().len() as int
        }
    }

    /// Line index of the cursor: the number of newlines before it.
    pub open spec fn cursor_line(&self) -> nat {
        count_newlines(self.bytes().subrange(0, self.clamped_cursor()))
    }

    /// Column of the cursor: its byte distance from the start of its line.
    pub open spec fn cursor_col(&self) -> int {
        self.clamped_cursor() - line_start(self.bytes(), self.clamped_cursor())
    }

    /// The editor can take any editing key: the cursor sits on a character
    /// boundary within the query, the query can grow by one character, and a
    /// history position points at an entry.
    pub open spec fn editing_ok(&self) -> bool {
        &&& self.cursor_pos <= self.bytes().len()
        &&& is_char_boundary(self.bytes(), self.cursor_pos as int)
        &&& self.bytes().len() + 4 <= isize::MAX
        &&& self.history_idx matches Some(i) ==> i < self.history@.len()
    }

    /// Every field other than the editing buffer and cursor is as in `other`.
    pub open spec fn same_meta(&self, other: &Self) -> bool {
        &&& self.active == other.active
        &&& self.result == other.result
        &&& self.history@ == other.history@
        &&& self.history_idx == other.history_idx
    }

    /// Empty, inactive editor with no history.
    pub fn new() -> (s: Self)
        ensures
            s.query@.len() == 0,
            s.cursor_pos == 0,
            !s.active,
            s.result.is_none(),
            s.history@.len() == 0,
            s.history_idx.is_none(),
    {
        SqlInputState {
            query: String::new(),
            cursor_pos: 0,
            active: false,
            result: None,
            history: Vec::new(),
            history_idx: None,
        }
    }

    /// Activates the SQL input bar.
    pub fn open(&mut self)
        ensures
            final(self).active,
            final(self).query == old(self).query,
            final(self).cursor_pos == old(self).cursor_pos,
            final(self).result == old(self).result,
            final(self).history@ == old(self).history@,
            final(self).history_idx == old(self).history_idx,
            *final(self) == (SqlInputState { active: true, ..*old(self) }),
    {
        self.active = true;
    }

    /// Closes the SQL input bar (keeps query for execution).
    pub fn close(&mut self)
        ensures
            !final(self).active,
            final(self).query == old(self).query,
            final(self).cursor_pos == old(self).cursor_pos,
            final(self).result == old(self).result,
            final(self).history@ == old(self).history@,
            final(self).history_idx == old(self).history_idx,
            *final(self) == (SqlInputState { active: false, ..*old(self) }),
    {
        self.active = false;
    }

    /// Resets all state (cancel/dismiss), history included.
    pub fn reset(&mut self)
        ensures
            final(self).query@.len() == 0,
            final(self).cursor_pos == 0,
            !final(self).active,
            final(self).result.is_none(),
            final(self).history@.len() == 0,
            final(self).history_idx.is_none(),
    {
        *self = Self::new();
    }

    /// Dismisses the result popup only.
    pub fn dismiss_result(&mut self)
        ensures
            final(self).result.is_none(),
            final(self).query == old(self).query,
            final(self).cursor_pos == old(self).cursor_pos,
            final(self).active == old(self).active,
            final(self).history@ == old(self).history@,
            final(self).history_idx == old(self).history_idx,
            *final(self) == (SqlInputState { result: None, ..*old(self) }),
    {
        self.result = None;
    }

    /// Returns true if a result popup is showing.
    pub fn has_result(&self) -> (r: bool)
        ensures
            r == self.result.is_some(),
    {
        self.result.is_some()
    }

    /// Inserts `c` at the cursor and moves the cursor past it.
    pub fn insert_char(&mut self, c: char)
        requires
            is_char_boundary(old(self).bytes(), old(self).cursor_pos as int),
            old(self).bytes().len() + 4 <= isize::MAX,
        ensures
            final(self).bytes() == with_char_at(old(self).bytes(), old(self).cursor_pos as int, c),
            final(self).cursor_pos == old(self).cursor_pos + utf8(seq![c]).len(),
            final(self).same_meta(old(self)),
    {
        proof {
            encode_utf8_valid_utf8(self.query@);
        }
        string_insert(&mut self.query, self.cursor_pos, c);
        let n = char_len_utf8(c);
        self.cursor_pos = self.cursor_pos + n;
    }

    /// Inserts a newline at the cursor.
    pub fn insert_newline(&mut self)
        requires
            is_char_boundary(old(self).bytes(), old(self).cursor_pos as int),
            old(self).bytes().len() + 4 <= isize::MAX,
        ensures
            final(self).bytes() == old(self).bytes().subrange(0, old(self).cursor_pos as int)
                + seq![nl()] + old(self).bytes().subrange(
                old(self).cursor_pos as int,
                old(self).bytes().len() as int,
            ),
            final(self).cursor_pos == old(self).cursor_pos + 1,
            final(self).same_meta(old(self)),
    {
        proof {
            lemma_newline_utf8();
        }
        self.insert_char('\n');
    }

    /// Byte offset of the character before the cursor.
    fn prev_char_boundary(&self) -> (p: usize)
        requires
            self.cursor_pos > 0,
        ensures
            p == boundary_at_or_before(self.bytes(), self.cursor_pos - 1),
    {
        let q = self.query.as_str();
        let mut p: usize = self.cursor_pos - 1;
        while p > 0 && !q.is_char_boundary(p)
            invariant
                q@ == self.query@,
                p < self.cursor_pos,
                boundary_at_or_before(self.bytes(), self.cursor_pos - 1)
                    == boundary_at_or_before(self.bytes(), p as int),
            decreases p,
        {
            p -= 1;
        }
        p
    }

    /// Byte offset just past the character at the cursor.
    fn next_char_boundary(&self) -> (p: usize)
        requires
            self.cursor_pos < self.bytes().len(),
        ensures
            p == boundary_at_or_after(self.bytes(), self.cursor_pos + 1),
    {
        let q = self.query.as_str();
        let len = byte_len(&self.query);
        let mut p: usize = self.cursor_pos + 1;
        while p < len && !q.is_char_boundary(p)
            invariant
                q@ == self.query@,
                len == self.bytes().len(),
                self.cursor_pos < p <= len,
                boundary_at_or_after(self.bytes(), self.cursor_pos + 1)
                    == boundary_at_or_after(self.bytes(), p as int),
            decreases len - p,
        {
            p += 1;
        }
        if p < len {
            p
        } else {
            len
        }
    }

    /// Deletes the character before the cursor (Backspace).
    pub fn delete_before(&mut self)
        requires
            old(self).cursor_pos > 0 ==> is_char_boundary(
                old(self).bytes(),
                old(self).cursor_pos as int,
            ),
        ensures
            old(self).cursor_pos == 0 ==> final(self).query == old(self).query,
            (final(self).bytes(), final(self).cursor_pos as int) == backspaced(
                old(self).bytes(),
                old(self).cursor_pos as int,
            ),
            final(self).same_meta(old(self)),
    {
        if self.cursor_pos == 0 {
            return;
        }
        let prev = self.prev_char_boundary();
        proof {
            encode_utf8_valid_utf8(self.query@);
            lemma_boundary_before(self.bytes(), self.cursor_pos - 1);
        }
        string_drain(&mut self.query, prev, self.cursor_pos);
        self.cursor_pos = prev;
    }

    /// Deletes the character at the cursor (Delete key).
    pub fn delete_at(&mut self)
        requires
            old(self).cursor_pos < old(self).bytes().len() ==> is_char_boundary(
                old(self).bytes(),
                old(self).cursor_pos as int,
            ),
        ensures
            old(self).cursor_pos >= old(self).bytes().len() ==> final(self).query == old(
                self,
            ).query,
            old(self).cursor_pos < old(self).bytes().len() ==> ({
                let n = boundary_at_or_after(old(self).bytes(), old(self).cursor_pos + 1);
                final(self).bytes() == old(self).bytes().subrange(0, old(self).cursor_pos as int)
                    + old(self).bytes().subrange(n, old(self).bytes().len() as int)
            }),
            final(self).cursor_pos == old(self).cursor_pos,
            final(self).same_meta(old(self)),
    {
        let len = byte_len(&self.query);
        if self.cursor_pos >= len {
            return;
        }
        let next = self.next_char_boundary();
        proof {
            encode_utf8_valid_utf8(self.query@);
            lemma_boundary_after(self.bytes(), self.cursor_pos + 1);
        }
        string_drain(&mut self.query, self.cursor_pos, next);
    }

    /// Moves the cursor one character to the left.
    pub fn move_left(&mut self)
        ensures
            final(self).cursor_pos == if old(self).cursor_pos == 0 {
                0
            } else {
                boundary_at_or_before(old(self).bytes(), old(self).cursor_pos - 1)
            },
            final(self).query == old(self).query,
            final(self).same_meta(old(self)),
    {
        if self.cursor_pos == 0 {
            return;
        }
        self.cursor_pos = self.prev_char_boundary();
    }

    /// Moves the cursor one character to the right.
    pub fn move_right(&mut self)
        ensures
            final(self).cursor_pos == if old(self).cursor_pos >= old(self).bytes().len() {
                old(self).cursor_pos as int
            } else {
                boundary_at_or_after(old(self).bytes(), old(self).cursor_pos + 1)
            },
            final(self).query == old(self).query,
            final(self).same_meta(old(self)),
    {
        let len = byte_len(&self.query);
        if self.cursor_pos >= len {
            return;
        }
        self.cursor_pos = self.next_char_boundary();
    }

    /// Returns (line_index, col_index) of the cursor, clamped to the query end.
    pub fn cursor_line_col(&self) -> (r: (usize, usize))
        requires
            is_char_boundary(self.bytes(), self.clamped_cursor()),
        ensures
            r.0 == self.cursor_line(),
            r.1 == self.cursor_col(),
    {
        let b = self.query.as_str().as_bytes();
        let len = b.len();
        let p = if self.cursor_pos < len {
            self.cursor_pos
        } else {
            len
        };
        let line = count_newlines_upto(b, p);
        let start = line_start_exec(b, p);
        proof {
            lemma_line_start_range(b@, p as int);
        }
        (line, p - start)
    }

    /// Moves the cursor one line up, keeping its column where the line is long
    /// enough.
    pub fn move_up(&mut self)
        requires
            is_char_boundary(old(self).bytes(), old(self).clamped_cursor()),
        ensures
            ({
                let b = old(self).bytes();
                let ls = line_start(b, old(self).clamped_cursor());
                let ps = line_start(b, ls - 1);
                let col = old(self).cursor_col();
                if old(self).cursor_line() == 0 {
                    final(self).cursor_pos == old(self).cursor_pos
                } else {
                    final(self).cursor_pos == ps + if col < ls - 1 - ps {
                        col
                    } else {
                        ls - 1 - ps
                    }
                }
            }),
            final(self).query == old(self).query,
            final(self).same_meta(old(self)),
    {
        let (line, col) = self.cursor_line_col();
        if line == 0 {
            return;
        }
        let b = self.query.as_str().as_bytes();
        let len = b.len();
        let p = if self.cursor_pos < len {
            self.cursor_pos
        } else {
            len
        };
        let ls = line_start_exec(b, p);
        proof {
            lemma_line_start_zero(b@, p as int);
            lemma_line_start_range(b@, p as int);
        }
        let ps = line_start_exec(b, ls - 1);
        proof {
            lemma_line_start_range(b@, ls - 1);
        }
        let prev_len = ls - 1 - ps;
        let new_col = if col < prev_len {
            col
        } else {
            prev_len
        };
        self.cursor_pos = ps + new_col;
    }

    /// Moves the cursor one line down, keeping its column where the line is long
    /// enough.
    pub fn move_down(&mut self)
        requires
            is_char_boundary(old(self).bytes(), old(self).clamped_cursor()),
        ensures
            ({
                let b = old(self).bytes();
                let e = line_end(b, old(self).clamped_cursor());
                let ne = line_end(b, e + 1);
                let col = old(self).cursor_col();
                if e >= b.len() {
                    final(self).cursor_pos == old(self).cursor_pos
                } else {
                    final(self).cursor_pos == e + 1 + if col < ne - (e + 1) {
                        col
                    } else {
                        ne - (e + 1)
                    }
                }
            }),
            final(self).query == old(self).query,
            final(self).same_meta(old(self)),
    {
        let (_line, col) = self.cursor_line_col();
        let b = self.query.as_str().as_bytes();
        let len = b.len();
        let p = if self.cursor_pos < len {
            self.cursor_pos
        } else {
            len
        };
        let e = line_end_exec(b, p);
        if e >= len {
            return;
        }
        let ne = line_end_exec(b, e + 1);
        proof {
            lemma_line_end_range(b@, e + 1);
        }
        let next_len = ne - (e + 1);
        let new_col = if col < next_len {
            col
        } else {
            next_len
        };
        self.cursor_pos = e + 1 + new_col;
    }

    /// Moves the cursor to the start of its line.
    pub fn move_line_start(&mut self)
        requires
            is_char_boundary(old(self).bytes(), old(self).cursor_pos as int),
        ensures
            final(self).cursor_pos == line_start(old(self).bytes(), old(self).cursor_pos as int),
            final(self).query == old(self).query,
            final(self).same_meta(old(self)),
    {
        let b = self.query.as_str().as_bytes();
        proof {
            encode_utf8_valid_utf8(self.query@);
        }
        self.cursor_pos = line_start_exec(b, self.cursor_pos);
    }

    /// Moves the cursor to the end of its line.
    pub fn move_line_end(&mut self)
        requires
            is_char_boundary(old(self).bytes(), old(self).cursor_pos as int),
        ensures
            final(self).cursor_pos == line_end(old(self).bytes(), old(self).cursor_pos as int),
            final(self).query == old(self).query,
            final(self).same_meta(old(self)),
    {
        let b = self.query.as_str().as_bytes();
        proof {
            encode_utf8_valid_utf8(self.query@);
        }
        self.cursor_pos = line_end_exec(b, self.cursor_pos);
    }

    /// Records the trimmed query in the history (deduplicated, at most
    /// `HISTORY_LIMIT` entries) and leaves history browsing.
    pub fn push_history(&mut self)
        ensures
            trim(old(self).query@).len() == 0 ==> final(self).history@ == old(self).history@
                && final(self).history_idx == old(self).history_idx,
            trim(old(self).query@).len() > 0 ==> views(final(self).history@)
                == history_after_push(views(old(self).history@), trim(old(self).query@))
                && final(self).history_idx.is_none(),
            final(self).query == old(self).query,
            final(self).cursor_pos == old(self).cursor_pos,
            final(self).active == old(self).active,
            final(self).result == old(self).result,
    {
        let q = trimmed(self.query.as_str());
        if q.unicode_len() == 0 {
            return;
        }
        let ghost old_views = views(self.history@);
        let n = self.history.len();
        let mut kept: Vec<String> = Vec::new();
        let mut i: usize = 0;
        while i < n
            invariant
                n == self.history@.len(),
                old_views == views(self.history@),
                i <= n,
                views(kept@) == without(old_views.subrange(0, i as int), q@),
            decreases n - i,
        {
            let eq = str_eq(self.history[i].as_str(), q.as_str());
            assert(old_views.subrange(0, i + 1).drop_last() =~= old_views.subrange(0, i as int));
            if !eq {
                let h = self.history[i].clone();
                kept.push(h);
                assert(views(kept@) =~= without(old_views.subrange(0, i as int), q@).push(
                    self.history@[i as int]@,
                ));
            }
            i += 1;
        }
        assert(old_views.subrange(0, n as int) =~= old_views);
        let ghost qv = q@;
        kept.push(q);
        assert(views(kept@) =~= without(old_views, qv).push(qv));
        if kept.len() > HISTORY_LIMIT {
            kept.remove(0);
            assert(views(kept@) =~= without(old_views, qv).push(qv).drop_first());
        }
        self.history = kept;
        self.history_idx = None;
    }

    /// Loads the previous (older) history entry into the buffer.
    pub fn history_prev(&mut self)
        requires
            old(self).history_idx matches Some(i) ==> i <= old(self).history@.len(),
        ensures
            old(self).history@.len() == 0 ==> final(self).query == old(self).query
                && final(self).cursor_pos == old(self).cursor_pos && final(self).history_idx
                == old(self).history_idx,
            old(self).history@.len() > 0 ==> ({
                let idx = older_index(old(self).history_idx, old(self).history@.len() as int);
                &&& final(self).history_idx == Some(idx as usize)
                &&& final(self).query@ == old(self).history@[idx]@
                &&& final(self).cursor_pos == utf8(final(self).query@).len()
            }),
            final(self).history@ == old(self).history@,
            final(self).active == old(self).active,
            final(self).result == old(self).result,
    {
        if self.history.len() == 0 {
            return;
        }
        let idx = match self.history_idx {
            None => self.history.len() - 1,
            Some(i) => if i == 0 {
                0
            } else {
                i - 1
            },
        };
        self.history_idx = Some(idx);
        self.query = self.history[idx].clone();
        self.cursor_pos = byte_len(&self.query);
    }

    /// Loads the next (newer) history entry; past the newest one the buffer is
    /// cleared and browsing ends.
    pub fn history_next(&mut self)
        requires
            old(self).history_idx matches Some(i) ==> i < old(self).history@.len(),
        ensures
            old(self).history_idx.is_none() ==> final(self).query == old(self).query
                && final(self).cursor_pos == old(self).cursor_pos && final(self).history_idx
                == old(self).history_idx,
            old(self).history_idx matches Some(i) ==> match newer_index(
                i as int,
                old(self).history@.len() as int,
            ) {
                None => {
                    &&& final(self).history_idx.is_none()
                    &&& final(self).query@.len() == 0
                    &&& final(self).cursor_pos == 0
                },
                Some(j) => {
                    &&& final(self).history_idx == Some(j as usize)
                    &&& final(self).query@ == old(self).history@[j]@
                    &&& final(self).cursor_pos == utf8(final(self).query@).len()
                },
            },
            final(self).history@ == old(self).history@,
            final(self).active == old(self).active,
            final(self).result == old(self).result,
    {
        let n = self.history.len();
        let idx = match self.history_idx {
            None => {
                return;
            },
            Some(i) => i,
        };
        if idx + 1 >= n {
            self.history_idx = None;
            string_clear(&mut self.query);
            self.cursor_pos = 0;
        } else {
            self.history_idx = Some(idx + 1);
            self.query = self.history[idx + 1].clone();
            self.cursor_pos = byte_len(&self.query);
        }
    }
}

// ───────────────────────── byte scanning ─────────────────────────

/// Number of newlines among the first `p` bytes.
fn count_newlines_upto(b: &[u8], p: usize) -> (n: usize)
    requires
        p <= b@.len(),
    ensures
        n == count_newlines(b@.subrange(0, p as int)),
{
    let mut n: usize = 0;
    let mut i: usize = 0;
    while i < p
        invariant
            p <= b@.len(),
            i <= p,
            n <= i,
            n == count_newlines(b@.subrange(0, i as int)),
        decreases p - i,
    {
        assert(b@.subrange(0, i + 1).drop_last() =~= b@.subrange(0, i as int));
        if b[i] == 10u8 {
            n += 1;
        }
        i += 1;
    }
    n
}

/// `line_start(b, p)`, computed by scanning back from `p`.
fn line_start_exec(b: &[u8], p: usize) -> (s: usize)
    requires
        p <= b@.len(),
    ensures
        s == line_start(b@, p as int),
{
    let mut k: usize = p;
    while k > 0 && b[k - 1] != 10u8
        invariant
            k <= p <= b@.len(),
            line_start(b@, p as int) == line_start(b@, k as int),
        decreases k,
    {
        k -= 1;
    }
    k
}

/// `line_end(b, p)`, computed by scanning forward from `p`.
fn line_end_exec(b: &[u8], p: usize) -> (e: usize)
    requires
        p <= b@.len(),
    ensures
        e == line_end(b@, p as int),
{
    let len = b.len();
    let mut k: usize = p;
    while k < len && b[k] != 10u8
        invariant
            len == b@.len(),
            p <= k <= len,
            line_end(b@, p as int) == line_end(b@, k as int),
        decreases len - k,
    {
        k += 1;
    }
    k
}

// ───────────────────────── lemmas ─────────────────────────

pub proof fn lemma_newline_utf8()
    ensures
        utf8(seq!['\n']) == seq![nl()],
{
    let s = seq!['\n'];
    assert(s[0] as u32 == 10u32);
    assert((10u32 & 0x7F) as u8 == 10u8) by (bit_vector);
    assert(s.drop_first() =~= Seq::<char>::empty());
    assert(encode_utf8(s) =~= encode_scalar(10u32) + encode_utf8(s.drop_first()));
    assert(encode_utf8(s) =~= seq![nl()]);
}

proof fn lemma_line_end_range(b: Seq<u8>, p: int)
    requires
        0 <= p,
    ensures
        p <= line_end(b, p) <= b.len() || p > b.len(),
        line_end(b, p) <= b.len(),
    decreases b.len() - p,
{
    if p < b.len() && b[p] != nl() {
        lemma_line_end_range(b, p + 1);
    }
}

proof fn lemma_line_start_range(b: Seq<u8>, p: int)
    requires
        0 <= p <= b.len(),
    ensures
        0 <= line_start(b, p) <= p,
        line_start(b, p) > 0 ==> b[line_start(b, p) - 1] == nl(),
    decreases p,
{
    if p > 0 && b[p - 1] != nl() {
        lemma_line_start_range(b, p - 1);
    }
}

proof fn lemma_line_start_zero(b: Seq<u8>, p: int)
    requires
        0 <= p <= b.len(),
        count_newlines(b.subrange(0, p)) > 0,
    ensures
        line_start(b, p) > 0,
    decreases p,
{
    assert(b.subrange(0, p).drop_last() =~= b.subrange(0, p - 1));
    if b[p - 1] != nl() {
        lemma_line_start_zero(b, p - 1);
    }
}

pub proof fn lemma_boundary_before(b: Seq<u8>, p: int)
    requires
        valid_utf8(b),
        p >= 0,
    ensures
        is_char_boundary(b, boundary_at_or_before(b, p)),
        boundary_at_or_before(b, p) <= p,
    decreases p,
{
    if p <= 0 {
        is_char_boundary_start_end_of_seq(b);
    } else if !is_char_boundary(b, p) {
        lemma_boundary_before(b, p - 1);
    }
}

pub proof fn lemma_boundary_after(b: Seq<u8>, p: int)
    requires
        valid_utf8(b),
        p >= 0,
    ensures
        is_char_boundary(b, boundary_at_or_after(b, p)),
        p <= boundary_at_or_after(b, p) || p > b.len(),
        boundary_at_or_after(b, p) <= b.len(),
    decreases b.len() - p,
{
    if p >= b.len() {
        is_char_boundary_start_end_of_seq(b);
    } else if !is_char_boundary(b, p) {
        lemma_boundary_after(b, p + 1);
    }
}

/// No entry occurs twice.
pub open spec fn no_duplicates(h: Seq<Seq<char>>) -> bool {
    forall|i: int, j: int| 0 <= i < j < h.len() ==> h[i] != h[j]
}

proof fn lemma_without(s: Seq<Seq<char>>, x: Seq<char>)
    ensures
        forall|y: Seq<char>| #[trigger] without(s, x).contains(y) <==> (s.contains(y) && y != x),
        without(s, x).len() <= s.len(),
        no_duplicates(s) ==> no_duplicates(without(s, x)),
    decreases s.len(),
{
    if s.len() == 0 {
        assert forall|y: Seq<char>| #[trigger] without(s, x).contains(y) <==> (s.contains(y)
            && y != x) by {
            if s.contains(y) {
                let k = choose|k: int| 0 <= k < s.len() && s[k] == y;
            }
        }
    } else {
        let init = s.drop_last();
        lemma_without(init, x);
        let w = without(init, x);
        lemma_push_contains(init, s.last());
        assert(init.push(s.last()) =~= s);
        if no_duplicates(s) {
            assert forall|i: int, j: int| 0 <= i < j < init.len() implies init[i] != init[j] by {
                assert(init[i] == s[i] && init[j] == s[j]);
            }
        }
        if s.last() != x {
            lemma_push_contains(w, s.last());
            if no_duplicates(s) {
                assert(!init.contains(s.last())) by {
                    if init.contains(s.last()) {
                        let k = choose|k: int| 0 <= k < init.len() && init[k] == s.last();
                        assert(s[k] == s[s.len() - 1]);
                    }
                }
                assert(!w.contains(s.last()));
                lemma_push_fresh(w, s.last());
            }
        }
        assert forall|y: Seq<char>| #[trigger] without(s, x).contains(y) <==> (s.contains(y)
            && y != x) by {
            assert(w.contains(y) <==> (init.contains(y) && y != x));
            assert(init.push(s.last()).contains(y) <==> (init.contains(y) || y == s.last()));
            if s.last() != x {
                assert(w.push(s.last()).contains(y) <==> (w.contains(y) || y == s.last()));
            }
        }
    }
}

proof fn lemma_push_contains(h: Seq<Seq<char>>, v: Seq<char>)
    ensures
        forall|y: Seq<char>| #[trigger] h.push(v).contains(y) <==> (h.contains(y) || y == v),
{
    assert forall|y: Seq<char>| #[trigger] h.push(v).contains(y) <==> (h.contains(y) || y == v) by {
        if h.push(v).contains(y) {
            let k = choose|k: int| 0 <= k < h.len() + 1 && h.push(v)[k] == y;
            if k < h.len() {
                assert(h[k] == y);
            }
        }
        if h.contains(y) {
            let k = choose|k: int| 0 <= k < h.len() && h[k] == y;
            assert(h.push(v)[k] == y);
        }
        if y == v {
            assert(h.push(v)[h.len() as int] == y);
        }
    }
}

proof fn lemma_push_fresh(h: Seq<Seq<char>>, q: Seq<char>)
    requires
        no_duplicates(h),
        !h.contains(q),
    ensures
        no_duplicates(h.push(q)),
{
    let p = h.push(q);
    assert forall|i: int, j: int| 0 <= i < j < p.len() implies p[i] != p[j] by {
        if j == h.len() {
            assert(h[i] == p[i]);
            if p[i] == q {
                assert(h.contains(q));
            }
        } else {
            assert(p[i] == h[i] && p[j] == h[j]);
        }
    }
}

/// Recording a query keeps the history free of repeated entries and within
/// `HISTORY_LIMIT` entries; the query becomes the newest entry, and every
/// other entry was there before.
pub proof fn law_history_push(h: Seq<Seq<char>>, q: Seq<char>)
    requires
        no_duplicates(h),
        h.len() <= HISTORY_LIMIT,
    ensures
        no_duplicates(history_after_push(h, q)),
        history_after_push(h, q).len() <= HISTORY_LIMIT,
        history_after_push(h, q).last() == q,
        forall|x: Seq<char>| #[trigger]
            history_after_push(h, q).contains(x) ==> x == q || h.contains(x),
{
    lemma_without(h, q);
    let w = without(h, q);
    let p = w.push(q);
    assert(!w.contains(q));
    lemma_push_fresh(w, q);
    lemma_push_contains(w, q);
    assert forall|x: Seq<char>| p.contains(x) implies x == q || h.contains(x) by {
        assert(p.contains(x) <==> (w.contains(x) || x == q));
    }
    if p.len() > HISTORY_LIMIT {
        let d = p.drop_first();
        assert forall|i: int, j: int| 0 <= i < j < d.len() implies d[i] != d[j] by {
            assert(d[i] == p[i + 1] && d[j] == p[j + 1]);
        }
        assert forall|x: Seq<char>| d.contains(x) implies x == q || h.contains(x) by {
            let k = choose|k: int| 0 <= k < d.len() && d[k] == x;
            assert(p[k + 1] == x);
        }
    }
}

proof fn lemma_char_encoding_bytes(c: char)
    ensures
        1 <= utf8(seq![c]).len() <= 4,
        !is_continuation_byte(utf8(seq![c])[0]),
        forall|i: int|
            1 <= i < utf8(seq![c]).len() ==> is_continuation_byte(#[trigger] utf8(seq![c])[i]),
{
    let s = c as u32;
    char_is_scalar(c);
    let one = seq![c];
    assert(one.drop_first() =~= Seq::<char>::empty());
    assert(encode_utf8(one) =~= encode_scalar(one[0] as u32) + encode_utf8(one.drop_first()));
    assert(utf8(one) =~= encode_scalar(s));
    assert(!is_continuation_byte(leading_byte_width_1(s))) by (bit_vector);
    assert(!is_continuation_byte(leading_byte_width_2(s))) by (bit_vector);
    assert(!is_continuation_byte(leading_byte_width_3(s))) by (bit_vector);
    assert(!is_continuation_byte(leading_byte_width_4(s))) by (bit_vector);
    assert(is_continuation_byte(last_continuation_byte(s))) by (bit_vector);
    assert(is_continuation_byte(second_last_continuation_byte(s))) by (bit_vector);
    assert(is_continuation_byte(third_last_continuation_byte(s))) by (bit_vector);
}

proof fn lemma_boundary_skips(b: Seq<u8>, p: int, m: int)
    requires
        0 <= p <= m,
        is_char_boundary(b, p),
        forall|j: int| p < j <= m ==> !is_char_boundary(b, j),
    ensures
        boundary_at_or_before(b, m) == p,
    decreases m - p,
{
    if m > p {
        lemma_boundary_skips(b, p, m - 1);
    }
}

/// No position between `s` and the boundary found from it is a boundary.
proof fn lemma_after_gap(b: Seq<u8>, s: int, q: int)
    requires
        0 <= s <= q < boundary_at_or_after(b, s),
    ensures
        !is_char_boundary(b, q),
    decreases b.len() - s,
{
    if s < b.len() && !is_char_boundary(b, s) && q > s {
        lemma_after_gap(b, s + 1, q);
    }
}

/// No position between the boundary found from `m` and `m` is a boundary.
proof fn lemma_before_gap(b: Seq<u8>, m: int, q: int)
    requires
        boundary_at_or_before(b, m) < q <= m,
    ensures
        !is_char_boundary(b, q),
    decreases m,
{
    if m > 0 && !is_char_boundary(b, m) && q < m {
        lemma_before_gap(b, m - 1, q);
    }
}

proof fn lemma_boundary_forward(b: Seq<u8>, s: int, p: int)
    requires
        0 <= s <= p <= b.len(),
        is_char_boundary(b, p),
        forall|j: int| s <= j < p ==> !is_char_boundary(b, j),
    ensures
        boundary_at_or_after(b, s) == p,
    decreases p - s,
{
    if s < p {
        lemma_boundary_forward(b, s + 1, p);
    }
}

/// From a character start before the end, moving the cursor right and then
/// left returns it to that character's start.
pub proof fn law_left_undoes_right(b: Seq<u8>, p: int)
    requires
        valid_utf8(b),
        0 <= p < b.len(),
        is_char_boundary(b, p),
    ensures
        boundary_at_or_before(b, boundary_at_or_after(b, p + 1) - 1) == p,
{
    let n = boundary_at_or_after(b, p + 1);
    lemma_boundary_after(b, p + 1);
    assert forall|j: int| p < j <= n - 1 implies !is_char_boundary(b, j) by {
        lemma_after_gap(b, p + 1, j);
    }
    lemma_boundary_skips(b, p, n - 1);
}

/// From a character start after the beginning, moving the cursor left and then
/// right returns it to that character's start.
pub proof fn law_right_undoes_left(b: Seq<u8>, p: int)
    requires
        valid_utf8(b),
        0 < p <= b.len(),
        is_char_boundary(b, p),
    ensures
        boundary_at_or_after(b, boundary_at_or_before(b, p - 1) + 1) == p,
{
    let q = boundary_at_or_before(b, p - 1);
    lemma_boundary_before(b, p - 1);
    assert forall|j: int| q + 1 <= j < p implies !is_char_boundary(b, j) by {
        lemma_before_gap(b, p - 1, j);
    }
    lemma_boundary_forward(b, q + 1, p);
}

/// Backspace right after typing a character removes exactly that character:
/// the buffer and the cursor are as they were before it was typed.
pub proof fn law_backspace_undoes_insert(b: Seq<u8>, p: int, c: char)
    requires
        valid_utf8(b),
        is_char_boundary(b, p),
    ensures
        backspaced(with_char_at(b, p, c), p + utf8(seq![c]).len()) == (b, p),
{
    let e = utf8(seq![c]);
    let k = e.len() as int;
    let pre = b.subrange(0, p);
    let post = b.subrange(p, b.len() as int);
    let b2 = with_char_at(b, p, c);
    lemma_char_encoding_bytes(c);
    valid_utf8_split(b, p);
    encode_utf8_valid_utf8(seq![c]);
    valid_utf8_concat(pre, e);
    valid_utf8_concat(pre + e, post);
    assert(b2 == pre + e + post);
    assert(b2[p] == e[0]);
    is_char_boundary_iff_not_is_continuation_byte(b2, p);
    assert forall|j: int| p < j <= p + k - 1 implies !is_char_boundary(b2, j) by {
        assert(b2[j] == e[j - p]);
        is_char_boundary_iff_not_is_continuation_byte(b2, j);
    }
    lemma_boundary_skips(b2, p, p + k - 1);
    assert(b2.subrange(0, p) + b2.subrange(p + k, b2.len() as int) =~= b);
}

/// Typing a character and then pressing Backspace gives the editor back its
/// text and cursor, multi-byte characters included, with the rest unchanged:
/// `s1` is what `insert_char(c)` leaves of `s0`, and `s2` what
/// `delete_before` leaves of `s1`.
pub proof fn law_backspace_undoes_typing(
    s0: SqlInputState,
    c: char,
    s1: SqlInputState,
    s2: SqlInputState,
)
    requires
        is_char_boundary(s0.bytes(), s0.cursor_pos as int),
        s1.bytes() == with_char_at(s0.bytes(), s0.cursor_pos as int, c),
        s1.cursor_pos == s0.cursor_pos + utf8(seq![c]).len(),
        s1.same_meta(&s0),
        (s2.bytes(), s2.cursor_pos as int) == backspaced(s1.bytes(), s1.cursor_pos as int),
        s2.same_meta(&s1),
    ensures
        s2.query@ == s0.query@,
        s2.cursor_pos == s0.cursor_pos,
        s2.same_meta(&s0),
{
    encode_utf8_valid_utf8(s0.query@);
    law_backspace_undoes_insert(s0.bytes(), s0.cursor_pos as int, c);
    vstd::utf8::encode_utf8_decode_utf8(s0.query@);
    vstd::utf8::encode_utf8_decode_utf8(s2.query@);
}

/// While browsing the history past its oldest entry, moving to an older entry
/// and back to a newer one returns to the same entry; both moves stay inside
/// the history, and moving newer from the newest entry ends browsing.
pub proof fn law_history_moves(i: usize, n: int)
    requires
        i < n,
    ensures
        0 <= older_index(Some(i), n) < n,
        0 <= older_index(None, n) < n,
        i > 0 ==> newer_index(older_index(Some(i), n), n) == Some(i as int),
        newer_index(n - 1, n).is_none(),
        newer_index(i as int, n) matches Some(j) ==> 0 <= j < n,
{
}

/// A position of `b2` that holds the byte a character start `p` of `b` holds
/// (or that is the end exactly when `p` is) is a character start of `b2`.
proof fn lemma_boundary_carried(b: Seq<u8>, p: int, b2: Seq<u8>, q: int)
    requires
        valid_utf8(b),
        valid_utf8(b2),
        is_char_boundary(b, p),
        0 <= p <= b.len(),
        0 <= q <= b2.len(),
        p == b.len() <==> q == b2.len(),
        q < b2.len() ==> b2[q] == b[p],
    ensures
        is_char_boundary(b2, q),
{
    if q == b2.len() {
        is_char_boundary_start_end_of_seq(b2);
    } else {
        is_char_boundary_iff_not_is_continuation_byte(b, p);
        is_char_boundary_iff_not_is_continuation_byte(b2, q);
    }
}

/// After typing `c` at a character start the cursor, just past it, is at a
/// character start again.
pub proof fn lemma_insert_keeps_boundary(b: Seq<u8>, p: int, c: char, b2: Seq<u8>)
    requires
        valid_utf8(b),
        valid_utf8(b2),
        is_char_boundary(b, p),
        0 <= p <= b.len(),
        b2 == with_char_at(b, p, c),
    ensures
        is_char_boundary(b2, p + utf8(seq![c]).len()),
        p + utf8(seq![c]).len() <= b2.len(),
        b2.len() == b.len() + utf8(seq![c]).len(),
        1 <= utf8(seq![c]).len() <= 4,
{
    lemma_char_encoding_bytes(c);
    let k = utf8(seq![c]).len() as int;
    assert(b2.len() == b.len() + k);
    if p < b.len() {
        assert(b2[p + k] == b[p]);
    }
    lemma_boundary_carried(b, p, b2, p + k);
}

/// After Backspace the cursor is at a character start of the shorter text.
pub proof fn lemma_backspace_keeps_boundary(b: Seq<u8>, p: int, b2: Seq<u8>, q: int)
    requires
        valid_utf8(b),
        valid_utf8(b2),
        is_char_boundary(b, p),
        0 <= p <= b.len(),
        (b2, q) == backspaced(b, p),
    ensures
        is_char_boundary(b2, q),
        0 <= q <= b2.len() <= b.len(),
{
    if p > 0 {
        lemma_boundary_before(b, p - 1);
        assert(b2.len() == q + b.len() - p);
        if p < b.len() {
            assert(b2[q] == b[p]);
        }
        lemma_boundary_carried(b, p, b2, q);
    }
}

/// After Delete the cursor is still at a character start of the shorter text.
pub proof fn lemma_delete_keeps_boundary(b: Seq<u8>, p: int, b2: Seq<u8>)
    requires
        valid_utf8(b),
        valid_utf8(b2),
        is_char_boundary(b, p),
        0 <= p < b.len(),
        b2 == b.subrange(0, p) + b.subrange(boundary_at_or_after(b, p + 1), b.len() as int),
    ensures
        is_char_boundary(b2, p),
        p <= b2.len() <= b.len(),
{
    let n = boundary_at_or_after(b, p + 1);
    lemma_boundary_after(b, p + 1);
    assert(b2.len() == p + b.len() - n);
    if n < b.len() {
        assert(b2[p] == b[n]);
    }
    lemma_boundary_carried(b, n, b2, p);
}

} // verus!
