//! Plain-text renderings of query results and table fields.
use crate::db::repo::sql_repo::{ColumnInfo, ConstraintType, RowData, TableField};
use crate::state::records::{RecordsState, MAX_CELL_LEN};
use crate::text::{
    byte_len, char_count, chars_of, debug_quoted, decimal, joined, lemma_joined_step, owned,
    pad_right, push_decimal, push_padded, push_repeat, push_str, repeat_char, str_debug,
    string_from_chars, utf8,
};
use vstd::prelude::*;

verus! {

/// Gap between two columns of a formatted table.
pub const COLUMN_GAP: &'static str = "   ";

/// `s` cut to `MAX_CELL_LEN - 3` characters followed by `...` when it is
/// longer than `MAX_CELL_LEN` characters.
pub open spec fn truncated(s: Seq<char>) -> Seq<char> {
    if s.len() <= MAX_CELL_LEN {
        s
    } else {
        s.subrange(0, MAX_CELL_LEN - 3) + "..."@
    }
}

/// Truncates a cell value to `MAX_CELL_LEN` characters and appends `...` if needed.
pub fn truncate_cell(s: &str) -> (r: String)
    ensures
        r@ == truncated(s@),
{
    if char_count(s) <= MAX_CELL_LEN {
        return owned(s);
    }
    let cs = chars_of(s);
    let mut r = string_from_chars(&cs, 0, MAX_CELL_LEN - 3);
    push_str(&mut r, "...");
    r
}

/// Width a cell takes in a formatted table: its characters up to
/// `MAX_CELL_LEN`, or 4 for NULL.
pub open spec fn shown_cell_width(c: Option<String>) -> int {
    match c {
        Some(s) => if s@.len() < MAX_CELL_LEN {
            s@.len() as int
        } else {
            MAX_CELL_LEN as int
        },
        None => 4,
    }
}

/// The widest cell `i` among the first `k` rows that have one (0 if none).
pub open spec fn widest_cell(rows: Seq<RowData>, i: int, k: int) -> int
    decreases k,
{
    if k <= 0 {
        0
    } else {
        let m = widest_cell(rows, i, k - 1);
        if 0 <= i < rows[k - 1]@.len() {
            let w = shown_cell_width(rows[k - 1]@[i]);
            if w > m {
                w
            } else {
                m
            }
        } else {
            m
        }
    }
}

/// Width of column `i`: its name in bytes or its widest cell.
pub open spec fn table_column_width(columns: Seq<ColumnInfo>, rows: Seq<RowData>, i: int) -> int {
    let n = utf8(columns[i].name@).len() as int;
    let m = widest_cell(rows, i, rows.len() as int);
    if n > m {
        n
    } else {
        m
    }
}

/// Sum of the widths of the first `k` columns.
pub open spec fn widths_total(columns: Seq<ColumnInfo>, rows: Seq<RowData>, k: int) -> int
    decreases k,
{
    if k <= 0 {
        0
    } else {
        widths_total(columns, rows, k - 1) + table_column_width(columns, rows, k - 1)
    }
}

/// Length of the separator line: all columns and the gaps between them.
pub open spec fn separator_len(columns: Seq<ColumnInfo>, rows: Seq<RowData>) -> int {
    widths_total(columns, rows, columns.len() as int) + 3 * (columns.len() - 1)
}

/// The text of a cell: its value or `NULL`, truncated.
pub open spec fn cell_text(c: Option<String>) -> Seq<char> {
    truncated(
        match c {
            Some(s) => s@,
            None => "NULL"@,
        },
    )
}

/// The header cells: each column name padded to its column's width.
pub open spec fn header_parts(columns: Seq<ColumnInfo>, rows: Seq<RowData>) -> Seq<Seq<char>> {
    Seq::new(
        columns.len(),
        |i: int| pad_right(columns[i].name@, table_column_width(columns, rows, i) as nat),
    )
}

/// The cells of one row, each padded to its column's width; cells beyond the
/// last column are left as they are.
pub open spec fn row_parts(columns: Seq<ColumnInfo>, rows: Seq<RowData>, row: Seq<Option<String>>) -> Seq<
    Seq<char>,
> {
    Seq::new(
        row.len(),
        |j: int|
            if j < columns.len() {
                pad_right(cell_text(row[j]), table_column_width(columns, rows, j) as nat)
            } else {
                cell_text(row[j])
            },
    )
}

/// The row lines of a formatted table.
pub open spec fn row_lines(columns: Seq<ColumnInfo>, rows: Seq<RowData>) -> Seq<Seq<char>> {
    Seq::new(rows.len(), |k: int| joined(row_parts(columns, rows, rows[k]@), COLUMN_GAP@))
}

/// The table layout: header, a dashed separator, then one line per row; or
/// `No data` without columns.
pub open spec fn records_table(columns: Seq<ColumnInfo>, rows: Seq<RowData>) -> Seq<char> {
    if columns.len() == 0 {
        "No data"@
    } else {
        joined(header_parts(columns, rows), COLUMN_GAP@) + "\n"@ + repeat_char(
            '-',
            separator_len(columns, rows) as nat,
        ) + "\n"@ + joined(row_lines(columns, rows), "\n"@)
    }
}

/// The widths of the first `k` columns add up to no more than all of them.
proof fn lemma_widths_total_mono(columns: Seq<ColumnInfo>, rows: Seq<RowData>, k: int)
    requires
        0 <= k <= columns.len(),
    ensures
        0 <= widths_total(columns, rows, k) <= widths_total(columns, rows, columns.len() as int),
    decreases columns.len() - k,
{
    if k < columns.len() {
        lemma_widths_total_mono(columns, rows, k + 1);
    }
    lemma_widths_total_nonneg(columns, rows, k);
}

proof fn lemma_widths_total_nonneg(columns: Seq<ColumnInfo>, rows: Seq<RowData>, k: int)
    ensures
        widths_total(columns, rows, k) >= 0,
    decreases k,
{
    if k > 0 {
        lemma_widths_total_nonneg(columns, rows, k - 1);
    }
}

/// The width of column `i` in a formatted table.
pub fn column_width(columns: &Vec<ColumnInfo>, rows: &Vec<RowData>, i: usize) -> (w: usize)
    requires
        i < columns@.len(),
    ensures
        w == table_column_width(columns@, rows@, i as int),
{
    let name_len = byte_len(&columns[i].name);
    let n = rows.len();
    let mut m: usize = 0;
    let mut k: usize = 0;
    while k < n
        invariant
            n == rows@.len(),
            k <= n,
            m == widest_cell(rows@, i as int, k as int),
            m <= MAX_CELL_LEN,
        decreases n - k,
    {
        if i < rows[k].len() {
            let w: usize = match &rows[k][i] {
                Some(s) => {
                    let c = char_count(s.as_str());
                    if c < MAX_CELL_LEN {
                        c
                    } else {
                        MAX_CELL_LEN
                    }
                },
                None => 4,
            };
            if w > m {
                m = w;
            }
        }
        k += 1;
    }
    if name_len > m {
        name_len
    } else {
        m
    }
}

/// `records` fits the table layout: its separator length fits in `usize`.
pub open spec fn table_fits(records: &RecordsState) -> bool {
    separator_len(records.columns@, records.rows@) <= usize::MAX
}

/// Formats records as a table with aligned columns.
pub fn format_records_table(records: &RecordsState) -> (r: String)
    requires
        table_fits(records),
    ensures
        r@ == records_table(records.columns@, records.rows@),
{
    let columns = &records.columns;
    let rows = &records.rows;
    let ncols = columns.len();
    if ncols == 0 {
        return owned("No data");
    }
    let ghost cols = columns@;
    let ghost rs = rows@;
    let mut widths: Vec<usize> = Vec::new();
    let mut total: usize = 0;
    let mut i: usize = 0;
    while i < ncols
        invariant
            ncols == cols.len(),
            cols == columns@,
            rs == rows@,
            separator_len(cols, rs) <= usize::MAX,
            i <= ncols,
            widths@.len() == i,
            forall|j: int| 0 <= j < i ==> #[trigger] widths@[j] == table_column_width(cols, rs, j),
            total == widths_total(cols, rs, i as int),
        decreases ncols - i,
    {
        let w = column_width(columns, rows, i);
        proof {
            lemma_widths_total_mono(cols, rs, i + 1);
        }
        widths.push(w);
        total = total + w;
        i += 1;
    }
    let mut out = String::new();
    let ghost hp = header_parts(cols, rs);
    i = 0;
    while i < ncols
        invariant
            ncols == cols.len(),
            cols == columns@,
            rs == rows@,
            hp == header_parts(cols, rs),
            i <= ncols,
            widths@.len() == ncols,
            forall|j: int| 0 <= j < ncols ==> #[trigger] widths@[j] == table_column_width(cols, rs, j),
            out@ == joined(hp.subrange(0, i as int), COLUMN_GAP@),
        decreases ncols - i,
    {
        proof {
            lemma_joined_step(hp, COLUMN_GAP@, i as int);
        }
        if i > 0 {
            push_str(&mut out, COLUMN_GAP);
        }
        push_padded(&mut out, columns[i].name.as_str(), widths[i]);
        i += 1;
    }
    assert(hp.subrange(0, ncols as int) =~= hp);
    push_str(&mut out, "\n");
    push_repeat(&mut out, '-', total + 3 * (ncols - 1));
    push_str(&mut out, "\n");
    let ghost prefix = out@;
    let ghost lines = row_lines(cols, rs);
    let nrows = rows.len();
    let mut k: usize = 0;
    while k < nrows
        invariant
            ncols == cols.len(),
            cols == columns@,
            rs == rows@,
            nrows == rs.len(),
            lines == row_lines(cols, rs),
            k <= nrows,
            widths@.len() == ncols,
            forall|j: int| 0 <= j < ncols ==> #[trigger] widths@[j] == table_column_width(cols, rs, j),
            out@ == prefix + joined(lines.subrange(0, k as int), "\n"@),
        decreases nrows - k,
    {
        proof {
            lemma_joined_step(lines, "\n"@, k as int);
        }
        if k > 0 {
            push_str(&mut out, "\n");
        }
        let line = format_row(&rows[k], &widths, Ghost(cols), Ghost(rs));
        push_str(&mut out, line.as_str());
        k += 1;
    }
    assert(lines.subrange(0, nrows as int) =~= lines);
    out
}

/// One row of the table layout, its cells padded to `widths`.
fn format_row(
    row: &RowData,
    widths: &Vec<usize>,
    Ghost(cols): Ghost<Seq<ColumnInfo>>,
    Ghost(rs): Ghost<Seq<RowData>>,
) -> (r: String)
    requires
        widths@.len() == cols.len(),
        forall|j: int| 0 <= j < cols.len() ==> #[trigger] widths@[j] == table_column_width(cols, rs, j),
    ensures
        r@ == joined(row_parts(cols, rs, row@), COLUMN_GAP@),
{
    let ghost parts = row_parts(cols, rs, row@);
    let n = row.len();
    let mut out = String::new();
    let mut j: usize = 0;
    while j < n
        invariant
            n == row@.len(),
            parts == row_parts(cols, rs, row@),
            widths@.len() == cols.len(),
            forall|x: int| 0 <= x < cols.len() ==> #[trigger] widths@[x] == table_column_width(cols, rs, x),
            j <= n,
            out@ == joined(parts.subrange(0, j as int), COLUMN_GAP@),
        decreases n - j,
    {
        proof {
            lemma_joined_step(parts, COLUMN_GAP@, j as int);
        }
        if j > 0 {
            push_str(&mut out, COLUMN_GAP);
        }
        let val = match &row[j] {
            Some(s) => truncate_cell(s.as_str()),
            None => truncate_cell("NULL"),
        };
        if j < widths.len() {
            push_padded(&mut out, val.as_str(), widths[j]);
        } else {
            push_str(&mut out, val.as_str());
        }
        j += 1;
    }
    assert(parts.subrange(0, n as int) =~= parts);
    out
}

/// The widest column name among the first `k` columns, in characters.
pub open spec fn name_width(columns: Seq<ColumnInfo>, k: int) -> int
    decreases k,
{
    if k <= 0 {
        0
    } else {
        let m = name_width(columns, k - 1);
        let w = columns[k - 1].name@.len() as int;
        if w > m {
            w
        } else {
            m
        }
    }
}

/// The value shown for column `j` of a row: the cell's text, or `∅` for NULL
/// or a missing cell.
pub open spec fn record_value(row: Seq<Option<String>>, j: int) -> Seq<char> {
    if 0 <= j < row.len() && row[j] is Some {
        row[j]->0@
    } else {
        "∅"@
    }
}

/// The field lines of one record for the first `k` columns, each preceded by
/// a line break: the column name padded to `w`, ` | ` and the value.
pub open spec fn field_lines(columns: Seq<ColumnInfo>, row: Seq<Option<String>>, w: nat, k: int) -> Seq<
    char,
>
    decreases k,
{
    if k <= 0 {
        Seq::empty()
    } else {
        field_lines(columns, row, w, k - 1) + "\n"@ + pad_right(columns[k - 1].name@, w) + " | "@
            + record_value(row, k - 1)
    }
}

/// The block of record number `k + 1`: a header line, then one line per column.
pub open spec fn record_block(columns: Seq<ColumnInfo>, row: Seq<Option<String>>, k: int) -> Seq<
    char,
> {
    "-[ RECORD "@ + decimal((k + 1) as nat) + " ]-------------------------"@ + field_lines(
        columns,
        row,
        name_width(columns, columns.len() as int) as nat,
        columns.len() as int,
    )
}

/// The vertical layout: one block per record separated by line breaks; or
/// `No data` without columns.
pub open spec fn records_vertical(columns: Seq<ColumnInfo>, rows: Seq<RowData>) -> Seq<char> {
    if columns.len() == 0 {
        "No data"@
    } else {
        joined(Seq::new(rows.len(), |k: int| record_block(columns, rows[k]@, k)), "\n"@)
    }
}

/// Formats records as vertical per-record field/value blocks.
pub fn format_records_vertical(records: &RecordsState) -> (r: String)
    ensures
        r@ == records_vertical(records.columns@, records.rows@),
{
    let columns = &records.columns;
    let rows = &records.rows;
    let ncols = columns.len();
    if ncols == 0 {
        return owned("No data");
    }
    let mut name_w: usize = 0;
    let mut i: usize = 0;
    while i < ncols
        invariant
            ncols == columns@.len(),
            i <= ncols,
            name_w == name_width(columns@, i as int),
        decreases ncols - i,
    {
        let c = char_count(columns[i].name.as_str());
        if c > name_w {
            name_w = c;
        }
        i += 1;
    }
    let ghost blocks = Seq::new(rows@.len(), |k: int| record_block(columns@, rows@[k]@, k));
    let nrows = rows.len();
    let mut out = String::new();
    let mut k: usize = 0;
    while k < nrows
        invariant
            ncols == columns@.len(),
            nrows == rows@.len(),
            name_w == name_width(columns@, ncols as int),
            blocks == Seq::new(rows@.len(), |k: int| record_block(columns@, rows@[k]@, k)),
            k <= nrows,
            out@ == joined(blocks.subrange(0, k as int), "\n"@),
        decreases nrows - k,
    {
        proof {
            lemma_joined_step(blocks, "\n"@, k as int);
        }
        if k > 0 {
            push_str(&mut out, "\n");
        }
        let ghost before = out@;
        push_str(&mut out, "-[ RECORD ");
        push_decimal(&mut out, (k as u64) + 1);
        push_str(&mut out, " ]-------------------------");
        let ghost head = out@;
        let row = &rows[k];
        let mut j: usize = 0;
        while j < ncols
            invariant
                ncols == columns@.len(),
                row@ == rows@[k as int]@,
                j <= ncols,
                out@ == head + field_lines(columns@, row@, name_w as nat, j as int),
            decreases ncols - j,
        {
            push_str(&mut out, "\n");
            push_padded(&mut out, columns[j].name.as_str(), name_w);
            push_str(&mut out, " | ");
            if j < row.len() {
                match &row[j] {
                    Some(v) => push_str(&mut out, v.as_str()),
                    None => push_str(&mut out, "∅"),
                }
            } else {
                push_str(&mut out, "∅");
            }
            j += 1;
        }
        assert(out@ == before + record_block(columns@, rows@[k as int]@, k as int));
        k += 1;
    }
    assert(blocks.subrange(0, nrows as int) =~= blocks);
    out
}

/// Formats records using the table layout when it fits, otherwise a vertical
/// layout.
pub fn format_records(records: &RecordsState, available_width: u16) -> (r: String)
    requires
        records.min_table_width <= available_width ==> table_fits(records),
    ensures
        r@ == if records.min_table_width > available_width {
            records_vertical(records.columns@, records.rows@)
        } else {
            records_table(records.columns@, records.rows@)
        },
{
    if records.min_table_width > available_width {
        return format_records_vertical(records);
    }
    format_records_table(records)
}

/// The `Debug` rendering of a constraint (empty without one), as the fields
/// layout shows it.
pub open spec fn constraint_debug(c: Option<ConstraintType>) -> Seq<char> {
    match c {
        None => Seq::empty(),
        Some(ConstraintType::PrimaryKey) => "PrimaryKey"@,
        Some(ConstraintType::Unique) => "Unique"@,
        Some(ConstraintType::ForeignKey(t)) => "ForeignKey("@ + debug_quoted(t@) + ")"@,
    }
}

/// Renders a constraint as its `Debug` text, or nothing without one.
pub fn constraint_label(c: &Option<ConstraintType>) -> (r: String)
    ensures
        r@ == constraint_debug(*c),
{
    match c {
        None => String::new(),
        Some(ConstraintType::PrimaryKey) => owned("PrimaryKey"),
        Some(ConstraintType::Unique) => owned("Unique"),
        Some(ConstraintType::ForeignKey(t)) => {
            let mut r = owned("ForeignKey(");
            let q = str_debug(t.as_str());
            push_str(&mut r, q.as_str());
            push_str(&mut r, ")");
            r
        },
    }
}

/// The text of column `c` (0 to 4: name, type, nullable, constraint, default)
/// of a field in the fields layout.
pub open spec fn field_text(f: TableField, c: int) -> Seq<char> {
    if c == 0 {
        f.name@
    } else if c == 1 {
        f.data_type@
    } else if c == 2 {
        f.is_nullable@
    } else if c == 3 {
        constraint_debug(f.constraint)
    } else {
        match f.default_value {
            Some(d) => d@,
            None => Seq::empty(),
        }
    }
}

/// The byte length of the header label of column `c` (0 to 3).
pub open spec fn field_label_len(c: int) -> int {
    if c == 0 {
        6
    } else if c == 1 {
        4
    } else if c == 2 {
        8
    } else {
        10
    }
}

/// Width of column `c` over the first `k` fields: the longest text in bytes,
/// at least the header label's length.
pub open spec fn field_width(fields: Seq<&TableField>, c: int, k: int) -> int
    decreases k,
{
    if k <= 0 {
        field_label_len(c)
    } else {
        let m = field_width(fields, c, k - 1);
        let w = utf8(field_text(*fields[k - 1], c)).len() as int;
        if w > m {
            w
        } else {
            m
        }
    }
}

/// The four padded column widths of the fields layout.
pub open spec fn field_widths(fields: Seq<&TableField>) -> (int, int, int, int) {
    let n = fields.len() as int;
    (field_width(fields, 0, n), field_width(fields, 1, n), field_width(fields, 2, n), field_width(fields, 3, n))
}

/// One line of the fields layout.
pub open spec fn field_line(
    a: Seq<char>,
    b: Seq<char>,
    c: Seq<char>,
    d: Seq<char>,
    e: Seq<char>,
    w: (int, int, int, int),
) -> Seq<char> {
    pad_right(a, w.0 as nat) + COLUMN_GAP@ + pad_right(b, w.1 as nat) + COLUMN_GAP@ + pad_right(
        c,
        w.2 as nat,
    ) + COLUMN_GAP@ + pad_right(d, w.3 as nat) + COLUMN_GAP@ + e + "\n"@
}

/// The lines of the first `k` fields.
pub open spec fn field_body(fields: Seq<&TableField>, w: (int, int, int, int), k: int) -> Seq<char>
    decreases k,
{
    if k <= 0 {
        Seq::empty()
    } else {
        let f = *fields[k - 1];
        field_body(fields, w, k - 1) + field_line(
            field_text(f, 0),
            field_text(f, 1),
            field_text(f, 2),
            field_text(f, 3),
            field_text(f, 4),
            w,
        )
    }
}

/// The fields layout: a header line, a dashed separator, then one line per
/// field.
pub open spec fn fields_table(fields: Seq<&TableField>) -> Seq<char> {
    let w = field_widths(fields);
    field_line("Column"@, "Type"@, "Nullable"@, "Constraint"@, "Default"@, w) + repeat_char(
        '-',
        (w.0 + w.1 + w.2 + w.3 + 7 + 12) as nat,
    ) + "\n"@ + field_body(fields, w, fields.len() as int)
}

/// The fields layout's separator length fits in `usize`.
pub open spec fn fields_fit(fields: Seq<&TableField>) -> bool {
    let w = field_widths(fields);
    w.0 + w.1 + w.2 + w.3 + 7 + 12 <= usize::MAX
}

proof fn lemma_field_width_bounds(fields: Seq<&TableField>, c: int, k: int)
    ensures
        field_width(fields, c, k) >= field_label_len(c),
    decreases k,
{
    if k > 0 {
        lemma_field_width_bounds(fields, c, k - 1);
    }
}

/// The width of column `c` (0 to 3) of the fields layout.
fn fields_column_width(fields: &[&TableField], labels: &Vec<String>, c: usize) -> (w: usize)
    requires
        c < 4,
        labels@.len() == fields@.len(),
        forall|k: int| 0 <= k < fields@.len() ==> #[trigger] labels@[k]@ == constraint_debug(fields@[k].constraint),
    ensures
        w == field_width(fields@, c as int, fields@.len() as int),
{
    let mut m: usize = if c == 0 {
        6
    } else if c == 1 {
        4
    } else if c == 2 {
        8
    } else {
        10
    };
    let n = fields.len();
    let mut k: usize = 0;
    while k < n
        invariant
            n == fields@.len(),
            c < 4,
            labels@.len() == n,
            forall|x: int| 0 <= x < n ==> #[trigger] labels@[x]@ == constraint_debug(fields@[x].constraint),
            k <= n,
            m == field_width(fields@, c as int, k as int),
        decreases n - k,
    {
        let f = fields[k];
        let w = if c == 0 {
            byte_len(&f.name)
        } else if c == 1 {
            byte_len(&f.data_type)
        } else if c == 2 {
            byte_len(&f.is_nullable)
        } else {
            byte_len(&labels[k])
        };
        if w > m {
            m = w;
        }
        k += 1;
    }
    m
}

/// Appends one line of the fields layout.
fn push_field_line(
    out: &mut String,
    cells: [&str; 5],
    w: (usize, usize, usize, usize),
)
    ensures
        final(out)@ == old(out)@ + field_line(
            cells[0]@,
            cells[1]@,
            cells[2]@,
            cells[3]@,
            cells[4]@,
            (w.0 as int, w.1 as int, w.2 as int, w.3 as int),
        ),
{
    push_padded(out, cells[0], w.0);
    push_str(out, COLUMN_GAP);
    push_padded(out, cells[1], w.1);
    push_str(out, COLUMN_GAP);
    push_padded(out, cells[2], w.2);
    push_str(out, COLUMN_GAP);
    push_padded(out, cells[3], w.3);
    push_str(out, COLUMN_GAP);
    push_str(out, cells[4]);
    push_str(out, "\n");
}

/// Formats table fields as aligned columns.
pub fn format_fields(fields: &[&TableField]) -> (r: String)
    requires
        fields_fit(fields@),
    ensures
        r@ == fields_table(fields@),
{
    let n = fields.len();
    let mut labels: Vec<String> = Vec::new();
    let mut k: usize = 0;
    while k < n
        invariant
            n == fields@.len(),
            k <= n,
            labels@.len() == k,
            forall|x: int| 0 <= x < k ==> #[trigger] labels@[x]@ == constraint_debug(fields@[x].constraint),
        decreases n - k,
    {
        labels.push(constraint_label(&fields[k].constraint));
        k += 1;
    }
    let name_w = fields_column_width(fields, &labels, 0);
    let type_w = fields_column_width(fields, &labels, 1);
    let nullable_w = fields_column_width(fields, &labels, 2);
    let constraint_w = fields_column_width(fields, &labels, 3);
    let w = (name_w, type_w, nullable_w, constraint_w);
    let ghost sw = field_widths(fields@);
    assert(sw == (w.0 as int, w.1 as int, w.2 as int, w.3 as int));
    let mut out = String::new();
    push_field_line(&mut out, ["Column", "Type", "Nullable", "Constraint", "Default"], w);
    push_repeat(&mut out, '-', name_w + type_w + nullable_w + constraint_w + 7 + 12);
    push_str(&mut out, "\n");
    let ghost head = out@;
    k = 0;
    while k < n
        invariant
            n == fields@.len(),
            k <= n,
            labels@.len() == n,
            forall|x: int| 0 <= x < n ==> #[trigger] labels@[x]@ == constraint_debug(fields@[x].constraint),
            sw == (w.0 as int, w.1 as int, w.2 as int, w.3 as int),
            out@ == head + field_body(fields@, sw, k as int),
        decreases n - k,
    {
        let f = fields[k];
        let default: &str = match &f.default_value {
            Some(d) => d.as_str(),
            None => "",
        };
        proof {
            assert(labels@[k as int]@ == constraint_debug(fields@[k as int].constraint));
            reveal_strlit("");
        }
        push_field_line(
            &mut out,
            [f.name.as_str(), f.data_type.as_str(), f.is_nullable.as_str(), labels[k].as_str(), default],
            w,
        );
        k += 1;
    }
    out
}

} // verus!
