//! SQL text for PostgreSQL: which statements return rows, and the count and
//! page queries that paginate an arbitrary query.
use crate::db::statement::{
    cte_parts, first_statement, first_statement_kind, returns_rows, returns_rows_spec, split_cte,
    SqlDialect,
};
use crate::text::{
    decimal, digit, owned, push_char, push_decimal, push_i64, push_str, signed_decimal,
};
use vstd::prelude::*;

verus! {

/// Whether `sql` returns rows: its first statement, parsed as PostgreSQL, is a
/// query or an `EXPLAIN`. Text that does not parse does not.
pub fn is_returning_query(sql: &str) -> (r: bool)
    ensures
        r == returns_rows_spec(first_statement(SqlDialect::Postgres, sql@)),
{
    returns_rows(first_statement_kind(SqlDialect::Postgres, sql))
}

/// The count query and the page query for `sql`, given its WITH split.
pub open spec fn pagination_sqls_spec(
    sql: Seq<char>,
    cte: Option<(Seq<char>, Seq<char>)>,
    limit: u16,
    offset: u64,
) -> (Seq<char>, Seq<char>) {
    match cte {
        Some((w, b)) => (
            w + ", _lazysql_count AS ("@ + b + ") SELECT COUNT(*) FROM _lazysql_count"@,
            w + ", _lazysql_data AS ("@ + b + ") SELECT * FROM _lazysql_data LIMIT "@ + decimal(
                limit as nat,
            ) + " OFFSET "@ + decimal(offset as nat),
        ),
        None => (
            "SELECT COUNT(*) FROM ("@ + sql + ") AS _subq"@,
            "SELECT * FROM ("@ + sql + ") AS _subq LIMIT "@ + decimal(limit as nat) + " OFFSET "@
                + decimal(offset as nat),
        ),
    }
}

/// Builds (count_sql, data_sql) for pagination from the query and its WITH
/// split. A query with a WITH clause cannot be wrapped in a subquery, so its
/// body becomes one more common table expression.
pub fn pagination_sqls(sql: &str, cte: Option<(String, String)>, limit: u16, offset: u64) -> (r: (
    String,
    String,
))
    ensures
        (r.0@, r.1@) == pagination_sqls_spec(
            sql@,
            match cte {
                Some((w, b)) => Some((w@, b@)),
                None => None,
            },
            limit,
            offset,
        ),
{
    match cte {
        Some((with_str, body)) => {
            let mut count = with_str.clone();
            push_str(&mut count, ", _lazysql_count AS (");
            push_str(&mut count, body.as_str());
            push_str(&mut count, ") SELECT COUNT(*) FROM _lazysql_count");
            let mut data = with_str;
            push_str(&mut data, ", _lazysql_data AS (");
            push_str(&mut data, body.as_str());
            push_str(&mut data, ") SELECT * FROM _lazysql_data LIMIT ");
            push_decimal(&mut data, limit as u64);
            push_str(&mut data, " OFFSET ");
            push_decimal(&mut data, offset);
            (count, data)
        },
        None => {
            let mut count = String::new();
            push_str(&mut count, "SELECT COUNT(*) FROM (");
            push_str(&mut count, sql);
            push_str(&mut count, ") AS _subq");
            let mut data = String::new();
            push_str(&mut data, "SELECT * FROM (");
            push_str(&mut data, sql);
            push_str(&mut data, ") AS _subq LIMIT ");
            push_decimal(&mut data, limit as u64);
            push_str(&mut data, " OFFSET ");
            push_decimal(&mut data, offset);
            (count, data)
        },
    }
}

/// Builds (count_sql, data_sql) for pagination of `sql` as PostgreSQL.
pub fn build_pagination_sqls(sql: &str, limit: u16, offset: u64) -> (r: (String, String))
    ensures
        (r.0@, r.1@) == pagination_sqls_spec(
            sql@,
            cte_parts(SqlDialect::Postgres, sql@),
            limit,
            offset,
        ),
{
    let cte = split_cte(SqlDialect::Postgres, sql);
    pagination_sqls(sql, cte, limit, offset)
}

/// A value of a PostgreSQL result cell, as read by column type. Values that
/// their own libraries render (floats, JSON, dates and times) come as text.
#[derive(Debug, Clone)]
pub enum PgValue {
    /// SQL `NULL`.
    Null,
    /// A `BOOL`.
    Bool(bool),
    /// An `INT2`, `INT4` or `INT8`.
    Int(i64),
    /// An `OID`.
    Oid(u32),
    /// A text column, or a value of another type that decodes as text.
    Text(String),
    /// A `BYTEA`.
    Bytes(Vec<u8>),
    /// A float, JSON, timestamp, date or time value, already rendered.
    Rendered(String),
    /// A non-NULL value of a type that is not decoded; holds the type's name.
    Unsupported(String),
}

/// The lowercase hexadecimal digit of `d < 16`.
pub open spec fn hex_digit(d: nat) -> char {
    if d < 10 {
        (48 + d) as char
    } else {
        (87 + d) as char
    }
}

/// Each byte as two lowercase hexadecimal digits, in order.
pub open spec fn hex_bytes(b: Seq<u8>) -> Seq<char>
    decreases b.len(),
{
    if b.len() == 0 {
        Seq::empty()
    } else {
        hex_bytes(b.drop_last()) + seq![
            hex_digit((b.last() / 16) as nat),
            hex_digit((b.last() % 16) as nat),
        ]
    }
}

/// The display text of a PostgreSQL value.
pub open spec fn pg_value_text(v: PgValue) -> Option<Seq<char>> {
    match v {
        PgValue::Null => None,
        PgValue::Bool(b) => Some(
            if b {
                "true"@
            } else {
                "false"@
            },
        ),
        PgValue::Int(i) => Some(signed_decimal(i as int)),
        PgValue::Oid(o) => Some(decimal(o as nat)),
        PgValue::Text(t) => Some(t@),
        PgValue::Bytes(b) => Some(hex_bytes(b@)),
        PgValue::Rendered(t) => Some(t@),
        PgValue::Unsupported(name) => Some("<"@ + name@ + ">"@),
    }
}

/// The hexadecimal digit of `d`.
fn hex_char(d: u8) -> (c: char)
    requires
        d < 16,
    ensures
        c == hex_digit(d as nat),
{
    if d < 10 {
        digit(d as u64)
    } else if d == 10 {
        'a'
    } else if d == 11 {
        'b'
    } else if d == 12 {
        'c'
    } else if d == 13 {
        'd'
    } else if d == 14 {
        'e'
    } else {
        'f'
    }
}

/// Converts one cell to its display text: `None` for `NULL`; booleans as
/// `true`/`false`; numbers in decimal; text and rendered values as they are;
/// `BYTEA` as lowercase hexadecimal; other types as `<type name>`.
pub fn row_value_to_string(value: PgValue) -> (r: Option<String>)
    ensures
        match r {
            Some(s) => pg_value_text(value) == Some(s@),
            None => pg_value_text(value).is_none(),
        },
{
    match value {
        PgValue::Null => None,
        PgValue::Bool(b) => Some(
            if b {
                owned("true")
            } else {
                owned("false")
            },
        ),
        PgValue::Int(i) => {
            let mut s = String::new();
            push_i64(&mut s, i);
            Some(s)
        },
        PgValue::Oid(o) => {
            let mut s = String::new();
            push_decimal(&mut s, o as u64);
            Some(s)
        },
        PgValue::Text(t) => Some(t),
        PgValue::Bytes(b) => {
            let n = b.len();
            let mut s = String::new();
            let mut i: usize = 0;
            while i < n
                invariant
                    n == b@.len(),
                    i <= n,
                    s@ == hex_bytes(b@.subrange(0, i as int)),
                decreases n - i,
            {
                let byte = b[i];
                assert(b@.subrange(0, i + 1).drop_last() =~= b@.subrange(0, i as int));
                push_char(&mut s, hex_char(byte / 16));
                push_char(&mut s, hex_char(byte % 16));
                i += 1;
            }
            assert(b@.subrange(0, n as int) =~= b@);
            Some(s)
        },
        PgValue::Rendered(t) => Some(t),
        PgValue::Unsupported(name) => {
            let mut s = owned("<");
            push_str(&mut s, name.as_str());
            push_str(&mut s, ">");
            Some(s)
        },
    }
}

} // verus!
