//! The Inspect screen's content: the table header, one row per column of the
//! table with its cells and tones, the column widths, and the index and
//! foreign-key footer.
use crate::db::repo::sql_repo::{ConstraintType, FkRef, IndexInfo, TableDetails, TableField};
use crate::state::search::{matches_spec, SearchState};
use crate::text::{char_count, decimal, push_i64, signed_decimal, has_char, joined, lemma_joined_step, owned, push_decimal, push_str, str_eq};
use crate::ui::view::{toned, Segment, Tone};
use vstd::prelude::*;

verus! {

/// Most characters of a default value that its column's width accounts for.
pub const DEFAULT_DISPLAY_CAP: usize = 48;

/// The length the constraint column gives a constraint (as the width rule
/// counts it: `FK -> ` is six).
pub open spec fn constraint_len_spec(c: Option<ConstraintType>) -> int {
    match c {
        Some(ConstraintType::PrimaryKey) => 11,
        Some(ConstraintType::Unique) => 6,
        Some(ConstraintType::ForeignKey(t)) => 6 + t@.len() as int,
        None => 1,
    }
}

/// Width the constraint column needs for a constraint.
pub fn constraint_text_len(constraint: &Option<ConstraintType>) -> (n: usize)
    requires
        constraint_len_spec(*constraint) <= usize::MAX,
    ensures
        n == constraint_len_spec(*constraint),
{
    match constraint {
        Some(ConstraintType::PrimaryKey) => 11,
        Some(ConstraintType::Unique) => 6,
        Some(ConstraintType::ForeignKey(t)) => 6 + char_count(t.as_str()),
        None => 1,
    }
}

/// The width one field asks of column `c` (0 to 4).
pub open spec fn field_need(f: TableField, c: int) -> int {
    if c == 0 {
        f.name@.len() as int
    } else if c == 1 {
        f.data_type@.len() as int
    } else if c == 2 {
        f.is_nullable@.len() as int
    } else if c == 3 {
        constraint_len_spec(f.constraint)
    } else {
        match f.default_value {
            Some(d) => if d@.len() < DEFAULT_DISPLAY_CAP {
                d@.len() as int
            } else {
                DEFAULT_DISPLAY_CAP as int
            },
            None => 1,
        }
    }
}

/// The header label length of column `c`.
pub open spec fn header_len(c: int) -> int {
    if c == 0 {
        6
    } else if c == 1 {
        4
    } else if c == 2 {
        4
    } else if c == 3 {
        10
    } else {
        7
    }
}

/// Width of column `c` over the first `k` fields: the header label or the
/// widest field.
pub open spec fn inspect_width(fields: Seq<&TableField>, c: int, k: int) -> int
    decreases k,
{
    if k <= 0 {
        header_len(c)
    } else {
        let m = inspect_width(fields, c, k - 1);
        let w = field_need(*fields[k - 1], c);
        if w > m {
            w
        } else {
            m
        }
    }
}

/// Every field's constraint length fits in `usize`.
pub open spec fn constraints_fit(fields: Seq<&TableField>) -> bool {
    forall|k: int| 0 <= k < fields.len() ==> constraint_len_spec((#[trigger] fields[k]).constraint) <= usize::MAX
}

/// The five column widths of the Inspect table (name, type, null, constraint,
/// default), each the widest visible text or its header, in `u16` (wrapping).
pub fn inspect_column_widths(fields: &[&TableField]) -> (w: [u16; 5])
    requires
        constraints_fit(fields@),
    ensures
        forall|c: int| 0 <= c < 5 ==> #[trigger] w@[c] == (inspect_width(fields@, c, fields@.len() as int) % 65536) as u16,
{
    let mut widths: [usize; 5] = [6, 4, 4, 10, 7];
    let n = fields.len();
    let mut k: usize = 0;
    while k < n
        invariant
            n == fields@.len(),
            constraints_fit(fields@),
            k <= n,
            forall|c: int| 0 <= c < 5 ==> #[trigger] widths@[c] == inspect_width(fields@, c, k as int),
        decreases n - k,
    {
        let f = fields[k];
        let needs: [usize; 5] = [
            char_count(f.name.as_str()),
            char_count(f.data_type.as_str()),
            char_count(f.is_nullable.as_str()),
            constraint_text_len(&f.constraint),
            match &f.default_value {
                Some(d) => {
                    let c = char_count(d.as_str());
                    if c < DEFAULT_DISPLAY_CAP {
                        c
                    } else {
                        DEFAULT_DISPLAY_CAP
                    }
                },
                None => 1,
            },
        ];
        let mut c: usize = 0;
        while c < 5
            invariant
                0 <= c <= 5,
                forall|x: int| 0 <= x < 5 ==> #[trigger] needs@[x] == field_need(*fields@[k as int], x),
                forall|x: int| 0 <= x < c ==> #[trigger] widths@[x] == inspect_width(fields@, x, k + 1),
                forall|x: int| c <= x < 5 ==> #[trigger] widths@[x] == inspect_width(fields@, x, k as int),
            decreases 5 - c,
        {
            if needs[c] > widths[c] {
                widths[c] = needs[c];
            }
            c += 1;
        }
        k += 1;
    }
    let mut out: [u16; 5] = [0, 0, 0, 0, 0];
    let mut c: usize = 0;
    while c < 5
        invariant
            0 <= c <= 5,
            forall|x: int| 0 <= x < 5 ==> #[trigger] widths@[x] == inspect_width(fields@, x, n as int),
            forall|x: int| 0 <= x < c ==> #[trigger] out@[x] == (widths@[x] % 65536) as u16,
        decreases 5 - c,
    {
        out[c] = (widths[c] % 65536) as u16;
        c += 1;
    }
    out
}

/// The header line of the Inspect screen: schema and table, row estimate,
/// size and number of columns.
pub open spec fn inspect_header_spec(d: TableDetails) -> Seq<char> {
    " "@ + d.schema@ + "."@ + d.name@ + " · "@ + match d.row_count {
        Some(n) => signed_decimal(n as int) + " rows"@,
        None => "? rows"@,
    } + " · "@ + match d.size_pretty {
        Some(s) => s@,
        None => "?"@,
    } + " · "@ + decimal(d.fields@.len()) + " columns "@
}

/// The header line of the Inspect screen.
pub fn inspect_header(d: &TableDetails) -> (r: String)
    ensures
        r@ == inspect_header_spec(*d),
{
    let mut r = owned(" ");
    push_str(&mut r, d.schema.as_str());
    push_str(&mut r, ".");
    push_str(&mut r, d.name.as_str());
    push_str(&mut r, " · ");
    match d.row_count {
        Some(n) => {
            push_i64(&mut r, n);
            push_str(&mut r, " rows");
        },
        None => push_str(&mut r, "? rows"),
    }
    push_str(&mut r, " · ");
    match &d.size_pretty {
        Some(s) => push_str(&mut r, s.as_str()),
        None => push_str(&mut r, "?"),
    }
    push_str(&mut r, " · ");
    push_decimal(&mut r, d.fields.len() as u64);
    push_str(&mut r, " columns ");
    r
}

/// The text and tone of cell `c` (0 to 4) of a field's row: name, type,
/// nullability, constraint and default.
pub open spec fn field_cell_spec(f: TableField, c: int) -> (Seq<char>, Tone) {
    if c == 0 {
        (f.name@, Tone::Fg0)
    } else if c == 1 {
        (f.data_type@, Tone::Blue)
    } else if c == 2 {
        if f.is_nullable@ == "YES"@ {
            ("YES"@, Tone::Green)
        } else {
            ("NO"@, Tone::Red)
        }
    } else if c == 3 {
        match f.constraint {
            Some(ConstraintType::PrimaryKey) => ("PRIMARY KEY"@, Tone::Yellow),
            Some(ConstraintType::Unique) => ("UNIQUE"@, Tone::Yellow),
            Some(ConstraintType::ForeignKey(t)) => ("FK → "@ + t@, Tone::Blue),
            None => ("—"@, Tone::Fg2),
        }
    } else {
        match f.default_value {
            Some(d) => (d@, if d@.contains('(') {
                Tone::Aqua
            } else {
                Tone::Purple
            }),
            None => ("—"@, Tone::Purple),
        }
    }
}

/// The five cells of a field's row in the Inspect table.
pub fn field_cells(f: &TableField) -> (r: Vec<Segment>)
    ensures
        r@.len() == 5,
        forall|c: int|
            0 <= c < 5 ==> (#[trigger] r@[c]).text@ == field_cell_spec(*f, c).0 && r@[c].tone
                == Some(field_cell_spec(*f, c).1) && !r@[c].bold,
{
    let mut r: Vec<Segment> = Vec::new();
    r.push(toned(f.name.clone(), Tone::Fg0));
    r.push(toned(f.data_type.clone(), Tone::Blue));
    if str_eq(f.is_nullable.as_str(), "YES") {
        r.push(toned(owned("YES"), Tone::Green));
    } else {
        r.push(toned(owned("NO"), Tone::Red));
    }
    match &f.constraint {
        Some(ConstraintType::PrimaryKey) => r.push(toned(owned("PRIMARY KEY"), Tone::Yellow)),
        Some(ConstraintType::Unique) => r.push(toned(owned("UNIQUE"), Tone::Yellow)),
        Some(ConstraintType::ForeignKey(t)) => {
            let mut s = owned("FK → ");
            push_str(&mut s, t.as_str());
            r.push(toned(s, Tone::Blue));
        },
        None => r.push(toned(owned("—"), Tone::Fg2)),
    }
    match &f.default_value {
        Some(d) => {
            let tone = if has_char(d.as_str(), '(') {
                Tone::Aqua
            } else {
                Tone::Purple
            };
            r.push(toned(d.clone(), tone));
        },
        None => r.push(toned(owned("—"), Tone::Purple)),
    }
    r
}

/// The fields whose names the search matches, in order.
pub open spec fn matching_fields(fields: Seq<TableField>, q: Seq<char>) -> Seq<TableField>
    decreases fields.len(),
{
    if fields.len() == 0 {
        fields
    } else if matches_spec(q, fields.last().name@) {
        matching_fields(fields.drop_last(), q).push(fields.last())
    } else {
        matching_fields(fields.drop_last(), q)
    }
}

/// The fields of the table that the search shows.
pub fn visible_fields<'a>(d: &'a TableDetails, search: &SearchState) -> (r: Vec<&'a TableField>)
    ensures
        r@.map_values(|f: &TableField| *f) == matching_fields(d.fields@, search.query@),
{
    let n = d.fields.len();
    let mut out: Vec<&TableField> = Vec::new();
    let mut i: usize = 0;
    while i < n
        invariant
            n == d.fields@.len(),
            i <= n,
            out@.map_values(|f: &TableField| *f) == matching_fields(
                d.fields@.subrange(0, i as int),
                search.query@,
            ),
        decreases n - i,
    {
        assert(d.fields@.subrange(0, i + 1).drop_last() =~= d.fields@.subrange(0, i as int));
        if search.matches(d.fields[i].name.as_str()) {
            let ghost before = out@;
            out.push(&d.fields[i]);
            assert(out@.map_values(|f: &TableField| *f) =~= before.map_values(
                |f: &TableField| *f,
            ).push(d.fields@[i as int]));
        }
        i += 1;
    }
    assert(d.fields@.subrange(0, n as int) =~= d.fields@);
    out
}

/// The highlighted row: the selection, limited to the last row (0 without
/// rows).
pub fn clamped_row(selected: usize, rows: usize) -> (r: usize)
    ensures
        r == if rows == 0 {
            0
        } else if selected < rows - 1 {
            selected as int
        } else {
            rows - 1
        },
{
    let last = if rows == 0 {
        0
    } else {
        rows - 1
    };
    if selected < last {
        selected
    } else {
        last
    }
}

/// The footer's index list: the names joined by two spaces, or `—` without
/// indexes.
pub open spec fn index_list_spec(indexes: Seq<IndexInfo>) -> Seq<char> {
    if indexes.len() == 0 {
        "—"@
    } else {
        joined(indexes.map_values(|i: IndexInfo| i.name@), "  "@)
    }
}

/// The footer's index list.
pub fn index_list(indexes: &Vec<IndexInfo>) -> (r: String)
    ensures
        r@ == index_list_spec(indexes@),
{
    let n = indexes.len();
    if n == 0 {
        return owned("—");
    }
    let ghost parts = indexes@.map_values(|i: IndexInfo| i.name@);
    let mut out = String::new();
    let mut k: usize = 0;
    while k < n
        invariant
            n == indexes@.len(),
            parts == indexes@.map_values(|i: IndexInfo| i.name@),
            k <= n,
            out@ == joined(parts.subrange(0, k as int), "  "@),
        decreases n - k,
    {
        proof {
            lemma_joined_step(parts, "  "@, k as int);
        }
        if k > 0 {
            push_str(&mut out, "  ");
        }
        push_str(&mut out, indexes[k].name.as_str());
        k += 1;
    }
    assert(parts.subrange(0, n as int) =~= parts);
    out
}

/// The footer's list of referencing columns, as `table.column` joined by two
/// spaces, or `—` without any.
pub open spec fn fk_list_spec(refs: Seq<FkRef>) -> Seq<char> {
    if refs.len() == 0 {
        "—"@
    } else {
        joined(refs.map_values(|r: FkRef| r.from_table@ + "."@ + r.column@), "  "@)
    }
}

/// The footer's list of referencing columns.
pub fn fk_list(refs: &Vec<FkRef>) -> (r: String)
    ensures
        r@ == fk_list_spec(refs@),
{
    let n = refs.len();
    if n == 0 {
        return owned("—");
    }
    let ghost parts = refs@.map_values(|r: FkRef| r.from_table@ + "."@ + r.column@);
    let mut out = String::new();
    let mut k: usize = 0;
    while k < n
        invariant
            n == refs@.len(),
            parts == refs@.map_values(|r: FkRef| r.from_table@ + "."@ + r.column@),
            k <= n,
            out@ == joined(parts.subrange(0, k as int), "  "@),
        decreases n - k,
    {
        proof {
            lemma_joined_step(parts, "  "@, k as int);
        }
        if k > 0 {
            push_str(&mut out, "  ");
        }
        push_str(&mut out, refs[k].from_table.as_str());
        push_str(&mut out, ".");
        push_str(&mut out, refs[k].column.as_str());
        k += 1;
    }
    assert(parts.subrange(0, n as int) =~= parts);
    out
}

} // verus!
