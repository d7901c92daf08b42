//! SQL text for browsing one table and the counts that come back: quoted
//! identifiers, the count, probe and page queries, and the placeholders of a
//! name list.
use crate::db::repo::db_repo::DbError;
use crate::db::repo::sql_repo::{ColumnInfo, FetchRowsResult, SqlExecuteResult, SqlPage};
use crate::db::statement::SqlDialect;
use crate::text::{decimal, owned, push_char, push_decimal, push_str, str_eq};
use vstd::prelude::*;

verus! {

/// The character that quotes identifiers in a dialect.
pub open spec fn quote_of(dialect: SqlDialect) -> char {
    match dialect {
        SqlDialect::Postgres => '"',
        SqlDialect::MySql => '`',
    }
}

/// `name` with every `q` doubled.
pub open spec fn escaped(name: Seq<char>, q: char) -> Seq<char>
    decreases name.len(),
{
    if name.len() == 0 {
        Seq::empty()
    } else {
        escaped(name.drop_last(), q) + if name.last() == q {
            seq![q, q]
        } else {
            seq![name.last()]
        }
    }
}

/// `name` as an identifier quoted with `q`.
pub open spec fn quoted(name: Seq<char>, q: char) -> Seq<char> {
    seq![q] + escaped(name, q) + seq![q]
}

/// `schema.table`, both quoted with `q`.
pub open spec fn qualified(schema: Seq<char>, table: Seq<char>, q: char) -> Seq<char> {
    quoted(schema, q) + "."@ + quoted(table, q)
}

/// Appends `name` quoted with `q`, doubling each `q` inside it.
pub fn push_quoted(s: &mut String, name: &str, q: char)
    ensures
        final(s)@ == old(s)@ + quoted(name@, q),
{
    let ghost start = s@;
    push_char(s, q);
    let cs = crate::text::chars_of(name);
    let n = cs.len();
    let mut i: usize = 0;
    while i < n
        invariant
            n == cs@.len(),
            cs@ == name@,
            i <= n,
            s@ == start + seq![q] + escaped(name@.subrange(0, i as int), q),
        decreases n - i,
    {
        assert(name@.subrange(0, i + 1).drop_last() =~= name@.subrange(0, i as int));
        let c = cs[i];
        if c == q {
            push_char(s, q);
            push_char(s, q);
        } else {
            push_char(s, c);
        }
        proof {
            let sub = name@.subrange(0, i + 1);
            assert(sub.last() == c);
            assert(s@ =~= start + seq![q] + escaped(sub, q));
        }
        i += 1;
    }
    assert(name@.subrange(0, n as int) =~= name@);
    push_char(s, q);
    assert(s@ =~= start + quoted(name@, q));
}

/// The quote character of `dialect`.
pub fn quote_char(dialect: SqlDialect) -> (c: char)
    ensures
        c == quote_of(dialect),
{
    match dialect {
        SqlDialect::Postgres => '"',
        SqlDialect::MySql => '`',
    }
}

/// The query counting the rows of `schema.table`.
pub open spec fn count_rows_spec(dialect: SqlDialect, schema: Seq<char>, table: Seq<char>) -> Seq<
    char,
> {
    "SELECT COUNT(*) FROM "@ + qualified(schema, table, quote_of(dialect))
}

/// The query counting the rows of `schema.table`.
pub fn count_rows_sql(dialect: SqlDialect, schema: &str, table: &str) -> (r: String)
    ensures
        r@ == count_rows_spec(dialect, schema@, table@),
{
    let q = quote_char(dialect);
    let mut r = owned("SELECT COUNT(*) FROM ");
    push_quoted(&mut r, schema, q);
    push_str(&mut r, ".");
    push_quoted(&mut r, table, q);
    assert(r@ =~= count_rows_spec(dialect, schema@, table@));
    r
}

/// The query that fetches no row of `schema.table`, for its column list.
pub open spec fn probe_spec(dialect: SqlDialect, schema: Seq<char>, table: Seq<char>) -> Seq<char> {
    "SELECT * FROM "@ + qualified(schema, table, quote_of(dialect)) + " LIMIT 0"@
}

/// The query that fetches no row of `schema.table`, for its column list.
pub fn probe_sql(dialect: SqlDialect, schema: &str, table: &str) -> (r: String)
    ensures
        r@ == probe_spec(dialect, schema@, table@),
{
    let q = quote_char(dialect);
    let mut r = owned("SELECT * FROM ");
    push_quoted(&mut r, schema, q);
    push_str(&mut r, ".");
    push_quoted(&mut r, table, q);
    push_str(&mut r, " LIMIT 0");
    assert(r@ =~= probe_spec(dialect, schema@, table@));
    r
}

/// The query for one page of `schema.table`, ordered by `id` when the table
/// has such a column.
pub open spec fn table_page_spec(
    dialect: SqlDialect,
    schema: Seq<char>,
    table: Seq<char>,
    has_id: bool,
    limit: u16,
    offset: u64,
) -> Seq<char> {
    "SELECT * FROM "@ + qualified(schema, table, quote_of(dialect)) + (if has_id {
        " ORDER BY "@ + quoted("id"@, quote_of(dialect))
    } else {
        Seq::empty()
    }) + " LIMIT "@ + decimal(limit as nat) + " OFFSET "@ + decimal(offset as nat)
}

/// The query for one page of `schema.table`.
pub fn table_page_sql(
    dialect: SqlDialect,
    schema: &str,
    table: &str,
    has_id: bool,
    limit: u16,
    offset: u64,
) -> (r: String)
    ensures
        r@ == table_page_spec(dialect, schema@, table@, has_id, limit, offset),
{
    let q = quote_char(dialect);
    let mut r = owned("SELECT * FROM ");
    push_quoted(&mut r, schema, q);
    push_str(&mut r, ".");
    push_quoted(&mut r, table, q);
    if has_id {
        push_str(&mut r, " ORDER BY ");
        push_quoted(&mut r, "id", q);
    }
    push_str(&mut r, " LIMIT ");
    push_decimal(&mut r, limit as u64);
    push_str(&mut r, " OFFSET ");
    push_decimal(&mut r, offset);
    proof {
        reveal_strlit("id");
    }
    assert(r@ =~= table_page_spec(dialect, schema@, table@, has_id, limit, offset));
    r
}

/// Whether one of the columns is named `id`.
pub fn has_id_column(columns: &[ColumnInfo]) -> (r: bool)
    ensures
        r == exists|i: int| 0 <= i < columns@.len() && (#[trigger] columns@[i]).name@ == "id"@,
{
    let n = columns.len();
    let mut i: usize = 0;
    while i < n
        invariant
            n == columns@.len(),
            i <= n,
            forall|k: int| 0 <= k < i ==> (#[trigger] columns@[k]).name@ != "id"@,
        decreases n - i,
    {
        if str_eq(columns[i].name.as_str(), "id") {
            return true;
        }
        i += 1;
    }
    false
}

/// A row count reported as a signed number: negative counts are 0.
pub fn count_from_i64(n: i64) -> (r: u64)
    ensures
        r == if n < 0 {
            0
        } else {
            n as int
        },
{
    if n < 0 {
        0
    } else {
        n as u64
    }
}

/// The page a MySQL query fetches: the one asked for, else the first 100 rows.
pub fn query_page(page: Option<SqlPage>) -> (r: SqlPage)
    ensures
        match page {
            Some(p) => r == p,
            None => r.limit == 100 && r.offset == 0,
        },
{
    match page {
        Some(p) => p,
        None => SqlPage { limit: 100, offset: 0 },
    }
}

/// The row total a MySQL page query reports: the rows skipped plus the rows
/// fetched.
pub fn query_total(offset: u64, fetched: usize) -> (r: u64)
    requires
        offset + fetched <= u64::MAX,
    ensures
        r == offset + fetched,
{
    offset + fetched as u64
}

/// `n` positional placeholders separated by commas.
pub open spec fn placeholders_spec(n: nat) -> Seq<char>
    decreases n,
{
    if n == 0 {
        Seq::empty()
    } else if n == 1 {
        "?"@
    } else {
        placeholders_spec((n - 1) as nat) + ", ?"@
    }
}

/// `n` positional placeholders separated by commas.
pub fn placeholders(n: usize) -> (r: String)
    ensures
        r@ == placeholders_spec(n as nat),
{
    let mut r = String::new();
    let mut i: usize = 0;
    while i < n
        invariant
            i <= n,
            r@ == placeholders_spec(i as nat),
        decreases n - i,
    {
        if i == 0 {
            push_str(&mut r, "?");
        } else {
            push_str(&mut r, ", ?");
        }
        i += 1;
    }
    r
}

/// The query naming which of the tables listed by placeholders exist.
pub open spec fn mysql_tables_spec(n: nat) -> Seq<char> {
    "SELECT DISTINCT table_name FROM information_schema.columns WHERE table_name IN ("@
        + placeholders_spec(n) + ") ORDER BY table_name"@
}

/// The query naming which of `n` listed tables exist.
pub fn mysql_tables_sql(n: usize) -> (r: String)
    ensures
        r@ == mysql_tables_spec(n as nat),
{
    let mut r = owned(
        "SELECT DISTINCT table_name FROM information_schema.columns WHERE table_name IN (",
    );
    let p = placeholders(n);
    push_str(&mut r, p.as_str());
    push_str(&mut r, ") ORDER BY table_name");
    r
}

/// Tables asked for by name: an error when none was asked for or none was
/// found, else the names found.
pub fn found_tables(asked: usize, found: Vec<String>) -> (r: Result<Vec<String>, DbError>)
    ensures
        match r {
            Ok(v) => asked > 0 && found@.len() > 0 && v@ == found@,
            Err(e) => (asked == 0 || found@.len() == 0) && (e matches DbError::NotFound(m) && m@
                == "Tables not found"@),
        },
{
    if asked == 0 || found.len() == 0 {
        Err(DbError::NotFound(owned("Tables not found")))
    } else {
        Ok(found)
    }
}

/// The rows a statement run for the records viewer returned; a statement
/// that returned none is an error.
pub fn rows_for_records(result: SqlExecuteResult) -> (r: Result<FetchRowsResult, DbError>)
    ensures
        match result {
            SqlExecuteResult::RowsReturned(f) => r == Ok::<FetchRowsResult, DbError>(f),
            SqlExecuteResult::RowsAffected(_) => r matches Err(DbError::NotFound(m)) && m@
                == "SQL did not return rows for records view"@,
        },
{
    match result {
        SqlExecuteResult::RowsReturned(f) => Ok(f),
        SqlExecuteResult::RowsAffected(_) => Err(
            DbError::NotFound(owned("SQL did not return rows for records view")),
        ),
    }
}

} // verus!
