//! Paginated records viewer state.
use crate::db::repo::sql_repo::{ColumnInfo, FetchRowsResult, RowData};
use crate::text::{byte_len, char_count, utf8};
use vstd::prelude::*;

verus! {

/// Maximum number of characters displayed per cell before truncation.
pub const MAX_CELL_LEN: usize = 50;

/// Gap between two table columns, in characters.
pub const COL_GAP: u16 = 3;

/// Source of records being viewed.
#[derive(Debug)]
pub enum RecordsSource {
    /// All rows of one table.
    Table { schema: String, table: String },
    /// The rows of a query.
    Query { sql: String },
}

impl Clone for RecordsSource {
    fn clone(&self) -> (r: Self)
        ensures
            r == *self,
    {
        match self {
            RecordsSource::Table { schema, table } => RecordsSource::Table {
                schema: schema.clone(),
                table: table.clone(),
            },
            RecordsSource::Query { sql } => RecordsSource::Query { sql: sql.clone() },
        }
    }
}

/// State for the paginated records viewer.
#[derive(Debug)]
pub struct RecordsState {
    /// What the rows come from.
    pub source: Option<RecordsSource>,
    /// Columns of the current page.
    pub columns: Vec<ColumnInfo>,
    /// Rows of the current page.
    pub rows: Vec<RowData>,
    /// Number of rows over all pages.
    pub total_count: u64,
    /// Index of the first row of the current page.
    pub offset: u64,
    /// Page size.
    pub rows_per_page: u16,
    /// Last load error.
    pub error: Option<String>,
    /// Width the table layout needs, borders included.
    pub min_table_width: u16,
    /// Selected row of the current page.
    pub selected_row: usize,
    /// Selected column (a field in the vertical layout).
    pub selected_col: usize,
}

/// `a + b` capped at `u16::MAX`.
pub open spec fn sat_add16(a: int, b: int) -> int {
    if a + b > 65535 {
        65535
    } else {
        a + b
    }
}

/// Display width of cell `i` of a row: its character count capped at
/// `MAX_CELL_LEN`, or 4 (the width of `NULL`) when absent or NULL.
pub open spec fn cell_width(row: Seq<Option<String>>, i: int) -> int {
    if 0 <= i < row.len() && row[i] is Some {
        let n = row[i]->0@.len() as int;
        if n < MAX_CELL_LEN {
            n
        } else {
            MAX_CELL_LEN as int
        }
    } else {
        4
    }
}

/// The widest cell `i` among the first `k` rows (0 without rows).
pub open spec fn max_cell_width(rows: Seq<RowData>, i: int, k: int) -> int
    decreases k,
{
    if k <= 0 {
        0
    } else {
        let m = max_cell_width(rows, i, k - 1);
        let w = cell_width(rows[k - 1]@, i);
        if w > m {
            w
        } else {
            m
        }
    }
}

/// Width of column `i`: its name in bytes or its widest cell, whichever is
/// larger.
pub open spec fn column_width(columns: Seq<ColumnInfo>, rows: Seq<RowData>, i: int) -> int {
    let n = utf8(columns[i].name@).len() as int;
    let m = max_cell_width(rows, i, rows.len() as int);
    if n > m {
        n
    } else {
        m
    }
}

/// Width of the first `k` columns with the gaps after them (no gap after the
/// last column), each step saturating at `u16::MAX`; column widths are taken
/// modulo 2^16 as the `u16` conversion does.
pub open spec fn columns_width(columns: Seq<ColumnInfo>, rows: Seq<RowData>, k: int) -> int
    decreases k,
{
    if k <= 0 {
        0
    } else {
        let w = sat_add16(
            columns_width(columns, rows, k - 1),
            column_width(columns, rows, k - 1) % 65536,
        );
        if k - 1 < columns.len() - 1 {
            sat_add16(w, COL_GAP as int)
        } else {
            w
        }
    }
}

/// Width of the whole table layout: all columns plus 4 for borders and padding.
pub open spec fn table_width(columns: Seq<ColumnInfo>, rows: Seq<RowData>) -> int {
    sat_add16(columns_width(columns, rows, columns.len() as int), 4)
}

/// The offset after moving one page of `rows_per_page` back, stopping at 0.
pub open spec fn offset_after_prev(offset: int, rows_per_page: int) -> int {
    if offset >= rows_per_page {
        offset - rows_per_page
    } else {
        0
    }
}

/// `ceil(a / b)` for `b > 0`.
pub open spec fn div_ceil(a: int, b: int) -> int {
    (a + b - 1) / b
}

impl Default for RecordsState {
    fn default() -> (s: Self)
        ensures
            s.is_empty(),
    {
        RecordsState::new()
    }
}

impl RecordsState {
    /// Empty state with no source.
    pub fn new() -> (s: Self)
        ensures
            s.is_empty(),
    {
        RecordsState {
            source: None,
            columns: Vec::new(),
            rows: Vec::new(),
            total_count: 0,
            offset: 0,
            rows_per_page: 0,
            error: None,
            min_table_width: 0,
            selected_row: 0,
            selected_col: 0,
        }
    }

    /// No source, no data, all counters at zero.
    pub open spec fn is_empty(&self) -> bool {
        &&& self.source.is_none()
        &&& self.columns@.len() == 0
        &&& self.rows@.len() == 0
        &&& self.total_count == 0
        &&& self.offset == 0
        &&& self.rows_per_page == 0
        &&& self.error.is_none()
        &&& self.min_table_width == 0
        &&& self.selected_row == 0
        &&& self.selected_col == 0
    }

    /// Apart from the source, the state is empty.
    pub open spec fn is_empty_but_source(&self) -> bool {
        &&& self.columns@.len() == 0
        &&& self.rows@.len() == 0
        &&& self.total_count == 0
        &&& self.offset == 0
        &&& self.rows_per_page == 0
        &&& self.error.is_none()
        &&& self.min_table_width == 0
        &&& self.selected_row == 0
        &&& self.selected_col == 0
    }

    /// Apart from the source and the page size, the state is empty.
    pub open spec fn is_empty_but_source_and_page(&self) -> bool {
        &&& self.columns@.len() == 0
        &&& self.rows@.len() == 0
        &&& self.total_count == 0
        &&& self.offset == 0
        &&& self.error.is_none()
        &&& self.min_table_width == 0
        &&& self.selected_row == 0
        &&& self.selected_col == 0
    }

    /// Creates state for viewing a table's records.
    pub fn for_table(schema: String, table: String) -> (s: Self)
        ensures
            s.source matches Some(RecordsSource::Table { schema: a, table: b }) && a == schema
                && b == table,
            s.is_empty_but_source(),
    {
        let mut s = Self::new();
        s.source = Some(RecordsSource::Table { schema, table });
        s
    }

    /// Creates state for viewing a query's results.
    pub fn for_query(sql: String) -> (s: Self)
        ensures
            s.source matches Some(RecordsSource::Query { sql: q }) && q == sql,
            s.is_empty_but_source(),
    {
        let mut s = Self::new();
        s.source = Some(RecordsSource::Query { sql });
        s
    }

    /// Resets all state.
    pub fn reset(&mut self)
        ensures
            final(self).is_empty(),
    {
        *self = Self::new();
    }

    /// Current page number (1-based) in spec form.
    pub open spec fn spec_current_page(&self) -> int {
        if self.rows_per_page == 0 {
            1
        } else {
            (self.offset as int) / (self.rows_per_page as int) + 1
        }
    }

    /// Total number of pages in spec form.
    pub open spec fn spec_total_pages(&self) -> int {
        if self.rows_per_page == 0 {
            1
        } else {
            div_ceil(self.total_count as int, self.rows_per_page as int)
        }
    }

    /// Whether a later page exists, in spec form.
    pub open spec fn spec_has_next_page(&self) -> bool {
        self.spec_current_page() < self.spec_total_pages()
    }

    /// The offset after moving to the next page: one page further when there
    /// is a next page, unchanged otherwise.
    pub open spec fn offset_after_next(&self) -> int {
        if self.spec_has_next_page() {
            self.offset + self.rows_per_page
        } else {
            self.offset as int
        }
    }

    /// Returns the current page number (1-based).
    pub fn current_page(&self) -> (p: u64)
        requires
            self.spec_current_page() <= u64::MAX,
        ensures
            p == self.spec_current_page(),
    {
        if self.rows_per_page == 0 {
            return 1;
        }
        (self.offset / self.rows_per_page as u64) + 1
    }

    /// Returns the total number of pages.
    pub fn total_pages(&self) -> (p: u64)
        ensures
            p == self.spec_total_pages(),
    {
        if self.rows_per_page == 0 {
            return 1;
        }
        let rpp = self.rows_per_page as u64;
        let q = self.total_count / rpp;
        let r = self.total_count % rpp;
        proof {
            lemma_div_ceil(self.total_count as int, rpp as int);
        }
        if r == 0 {
            q
        } else {
            assert(q < 0xffff_ffff_ffff_ffffu64) by (nonlinear_arith)
                requires
                    rpp >= 2,
                    q == self.total_count / rpp,
            ;
            q + 1
        }
    }

    /// Returns true if there's a next page.
    pub fn has_next_page(&self) -> (b: bool)
        requires
            self.spec_current_page() <= u64::MAX,
        ensures
            b == self.spec_has_next_page(),
    {
        self.current_page() < self.total_pages()
    }

    /// Returns true if there's a previous page.
    pub fn has_prev_page(&self) -> (b: bool)
        ensures
            b == (self.offset > 0),
    {
        self.offset > 0
    }

    /// Advances to the next page when there is one; returns the new offset.
    pub fn next_page(&mut self) -> (o: u64)
        requires
            old(self).spec_current_page() <= u64::MAX,
            old(self).spec_has_next_page() ==> old(self).offset + old(self).rows_per_page
                <= u64::MAX,
        ensures
            final(self).offset == old(self).offset_after_next(),
            o == final(self).offset,
            final(self).rows_per_page == old(self).rows_per_page,
            final(self).total_count == old(self).total_count,
            final(self).columns@ == old(self).columns@,
            final(self).rows@ == old(self).rows@,
            final(self).source == old(self).source,
            *final(self) == (RecordsState { offset: final(self).offset, ..*old(self) }),
    {
        if self.has_next_page() {
            self.offset += self.rows_per_page as u64;
        }
        self.offset
    }

    /// Goes back one page, stopping at offset 0; returns the new offset.
    pub fn prev_page(&mut self) -> (o: u64)
        ensures
            final(self).offset == offset_after_prev(
                old(self).offset as int,
                old(self).rows_per_page as int,
            ),
            o == final(self).offset,
            final(self).rows_per_page == old(self).rows_per_page,
            final(self).total_count == old(self).total_count,
            final(self).columns@ == old(self).columns@,
            final(self).rows@ == old(self).rows@,
            final(self).source == old(self).source,
            *final(self) == (RecordsState { offset: final(self).offset, ..*old(self) }),
    {
        let rpp = self.rows_per_page as u64;
        self.offset = if self.offset >= rpp {
            self.offset - rpp
        } else {
            0
        };
        self.offset
    }

    /// Moves the row selection down, stopping at the last row.
    pub fn move_row_down(&mut self)
        ensures
            *final(self) == (RecordsState {
                selected_row: if old(self).selected_row + 1 < old(self).rows@.len() {
                    (old(self).selected_row + 1) as usize
                } else {
                    old(self).selected_row
                },
                ..*old(self)
            }),
    {
        if self.selected_row < self.rows.len() && self.selected_row + 1 < self.rows.len() {
            self.selected_row = self.selected_row + 1;
        }
    }

    /// Moves the row selection up, stopping at the first row.
    pub fn move_row_up(&mut self)
        ensures
            *final(self) == (RecordsState {
                selected_row: if old(self).selected_row > 0 {
                    (old(self).selected_row - 1) as usize
                } else {
                    0
                },
                ..*old(self)
            }),
    {
        if self.selected_row > 0 {
            self.selected_row = self.selected_row - 1;
        }
    }

    /// Moves the column selection right, stopping at the last column.
    pub fn move_col_right(&mut self)
        ensures
            *final(self) == (RecordsState {
                selected_col: if old(self).selected_col + 1 < old(self).columns@.len() {
                    (old(self).selected_col + 1) as usize
                } else {
                    old(self).selected_col
                },
                ..*old(self)
            }),
    {
        if self.selected_col < self.columns.len() && self.selected_col + 1 < self.columns.len() {
            self.selected_col = self.selected_col + 1;
        }
    }

    /// Moves the column selection left, stopping at the first column.
    pub fn move_col_left(&mut self)
        ensures
            *final(self) == (RecordsState {
                selected_col: if old(self).selected_col > 0 {
                    (old(self).selected_col - 1) as usize
                } else {
                    0
                },
                ..*old(self)
            }),
    {
        if self.selected_col > 0 {
            self.selected_col = self.selected_col - 1;
        }
    }

    /// Updates state from a fetch result and recomputes the table width.
    pub fn update_from_result(&mut self, result: FetchRowsResult)
        ensures
            final(self).columns@ == result.columns@,
            final(self).rows@ == result.rows@,
            final(self).total_count == result.total_count,
            final(self).error.is_none(),
            final(self).min_table_width == table_width(result.columns@, result.rows@),
            final(self).offset == old(self).offset,
            final(self).rows_per_page == old(self).rows_per_page,
            final(self).source == old(self).source,
            final(self).selected_row == old(self).selected_row,
            final(self).selected_col == old(self).selected_col,
    {
        self.columns = result.columns;
        self.rows = result.rows;
        self.total_count = result.total_count;
        self.error = None;
        self.calculate_min_table_width();
    }

    /// Calculates the minimum width needed for the table layout.
    pub fn calculate_min_table_width(&mut self)
        ensures
            final(self).min_table_width == table_width(old(self).columns@, old(self).rows@),
            final(self).columns@ == old(self).columns@,
            final(self).rows@ == old(self).rows@,
            final(self).total_count == old(self).total_count,
            final(self).offset == old(self).offset,
            final(self).rows_per_page == old(self).rows_per_page,
            final(self).error == old(self).error,
            final(self).source == old(self).source,
            final(self).selected_row == old(self).selected_row,
            final(self).selected_col == old(self).selected_col,
    {
        let ncols = self.columns.len();
        let mut width: u16 = 0;
        let mut i: usize = 0;
        while i < ncols
            invariant
                ncols == self.columns@.len(),
                i <= ncols,
                width == columns_width(self.columns@, self.rows@, i as int),
            decreases ncols - i,
        {
            let name_len = byte_len(&self.columns[i].name);
            let cells = max_cell(&self.rows, i);
            let col_width = if name_len > cells {
                name_len
            } else {
                cells
            };
            let w16 = (col_width % 65536) as u16;
            width = if width as u32 + w16 as u32 > 65535 {
                65535
            } else {
                width + w16
            };
            if i < ncols - 1 {
                width = if width as u32 + COL_GAP as u32 > 65535 {
                    65535
                } else {
                    width + COL_GAP
                };
            }
            i += 1;
        }
        self.min_table_width = if width as u32 + 4 > 65535 {
            65535
        } else {
            width + 4
        };
    }
}

/// The widest display width of cell `i` over all rows.
fn max_cell(rows: &Vec<RowData>, i: usize) -> (m: usize)
    ensures
        m == max_cell_width(rows@, i as int, rows@.len() as int),
{
    let n = rows.len();
    let mut m: usize = 0;
    let mut k: usize = 0;
    while k < n
        invariant
            n == rows@.len(),
            k <= n,
            m == max_cell_width(rows@, i as int, k as int),
            m <= MAX_CELL_LEN,
        decreases n - k,
    {
        let w: usize = if i < rows[k].len() {
            match &rows[k][i] {
                Some(s) => {
                    let c = char_count(s.as_str());
                    if c < MAX_CELL_LEN {
                        c
                    } else {
                        MAX_CELL_LEN
                    }
                },
                None => 4,
            }
        } else {
            4
        };
        if w > m {
            m = w;
        }
        k += 1;
    }
    m
}

/// Moving back a page right after moving forward a page returns to the same
/// offset.
pub proof fn law_prev_page_undoes_next_page(s: RecordsState)
    requires
        s.spec_has_next_page(),
    ensures
        offset_after_prev(s.offset_after_next(), s.rows_per_page as int) == s.offset,
{
}

/// A later page exists only with a page size and an offset below the total.
pub proof fn lemma_next_page_bounds(s: RecordsState)
    requires
        s.spec_has_next_page(),
    ensures
        s.rows_per_page > 0,
        s.offset < s.total_count,
{
    if s.rows_per_page > 0 {
        let r = s.rows_per_page as int;
        let o = s.offset as int;
        let t = s.total_count as int;
        let q = o / r;
        let m = (t + r - 1) / r;
        vstd::arithmetic::div_mod::lemma_fundamental_div_mod(o, r);
        vstd::arithmetic::div_mod::lemma_fundamental_div_mod(t + r - 1, r);
        assert(o < (q + 1) * r) by (nonlinear_arith)
            requires
                o == r * q + o % r,
                0 <= o % r < r,
        ;
        assert((q + 1) * r < t) by (nonlinear_arith)
            requires
                q + 1 < m,
                t + r - 1 == r * m + (t + r - 1) % r,
                0 <= (t + r - 1) % r < r,
                r > 0,
        ;
    }
}

/// Below the largest offset the page number fits in a `u64`.
pub proof fn lemma_current_page_fits(s: RecordsState)
    requires
        s.offset < u64::MAX,
    ensures
        s.spec_current_page() <= u64::MAX,
{
    if s.rows_per_page > 0 {
        let r = s.rows_per_page as int;
        let o = s.offset as int;
        assert(o / r <= o) by (nonlinear_arith)
            requires
                r > 0,
                o >= 0,
        ;
    }
}

/// Offsets reached by paging from a page start are page starts too: paging
/// keeps the offset a multiple of the page size.
pub proof fn law_paging_keeps_page_starts(s: RecordsState)
    requires
        s.rows_per_page > 0,
        (s.offset as int) % (s.rows_per_page as int) == 0,
    ensures
        s.offset_after_next() % (s.rows_per_page as int) == 0,
        offset_after_prev(s.offset as int, s.rows_per_page as int) % (s.rows_per_page as int)
            == 0,
{
    let r = s.rows_per_page as int;
    let o = s.offset as int;
    vstd::arithmetic::div_mod::lemma_mod_add_multiples_vanish(o, r);
    if o >= r {
        vstd::arithmetic::div_mod::lemma_mod_sub_multiples_vanish(o, r);
        assert(-r + o == o - r);
    } else {
        vstd::arithmetic::div_mod::lemma_small_mod(0, r as nat);
    }
}

/// From a page start, moving to the next page never leaves the rows: the new
/// offset is the index of an existing row.
pub proof fn law_next_page_stays_within_rows(s: RecordsState)
    requires
        s.rows_per_page > 0,
        (s.offset as int) % (s.rows_per_page as int) == 0,
        s.spec_has_next_page(),
    ensures
        s.offset_after_next() < s.total_count,
{
    let r = s.rows_per_page as int;
    let o = s.offset as int;
    let t = s.total_count as int;
    let q = o / r;
    assert(o == q * r) by (nonlinear_arith)
        requires
            r > 0,
            o % r == 0,
            q == o / r,
    ;
    assert(o + r < t) by (nonlinear_arith)
        requires
            r > 0,
            q >= 0,
            o == q * r,
            q + 1 < (t + r - 1) / r,
    ;
}

/// On a page that starts at an existing row, the page number is at most the
/// number of pages.
pub proof fn law_current_page_within_total(s: RecordsState)
    requires
        s.rows_per_page > 0,
        (s.offset as int) % (s.rows_per_page as int) == 0,
        s.offset < s.total_count,
    ensures
        1 <= s.spec_current_page() <= s.spec_total_pages(),
{
    let r = s.rows_per_page as int;
    let o = s.offset as int;
    let t = s.total_count as int;
    let q = o / r;
    assert(o == q * r) by (nonlinear_arith)
        requires
            r > 0,
            o % r == 0,
            q == o / r,
    ;
    assert(q >= 0) by (nonlinear_arith)
        requires
            r > 0,
            o >= 0,
            q == o / r,
    ;
    assert(q + 1 <= (t + r - 1) / r) by (nonlinear_arith)
        requires
            r > 0,
            q >= 0,
            o == q * r,
            o < t,
    {
        assert(t + r - 1 >= (q + 1) * r);
        vstd::arithmetic::div_mod::lemma_div_is_ordered((q + 1) * r, t + r - 1, r);
        vstd::arithmetic::div_mod::lemma_div_multiples_vanish(q + 1, r);
    }
}

proof fn lemma_div_ceil(a: int, b: int)
    requires
        a >= 0,
        b > 0,
    ensures
        div_ceil(a, b) == if a % b == 0 {
            a / b
        } else {
            a / b + 1
        },
{
    assert(div_ceil(a, b) == if a % b == 0 {
        a / b
    } else {
        a / b + 1
    }) by (nonlinear_arith)
        requires
            a >= 0,
            b > 0,
    {
        let q = a / b;
        let r = a % b;
        assert(a == q * b + r);
        if r == 0 {
            assert(a + b - 1 == q * b + (b - 1));
        } else {
            assert(a + b - 1 == (q + 1) * b + (r - 1));
        }
    }
}

} // verus!
