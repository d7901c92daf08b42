//! SQL text for MySQL: which statements return rows, and the page query that
//! paginates an arbitrary query.
use crate::db::statement::{
    cte_parts, first_statement, first_statement_kind, returns_rows, returns_rows_spec, split_cte,
    SqlDialect,
};
use crate::text::{
    decimal, decimal_2, owned, push_decimal, push_decimal_2, push_i64, push_str, signed_decimal,
    string_from_utf8, utf8,
};
use vstd::utf8::valid_utf8;
use vstd::prelude::*;

verus! {

/// Whether `sql` returns rows: its first statement, parsed as MySQL, is a
/// query or an `EXPLAIN`. Text that does not parse does not.
pub fn is_returning_query(sql: &str) -> (r: bool)
    ensures
        r == returns_rows_spec(first_statement(SqlDialect::MySql, sql@)),
{
    returns_rows(first_statement_kind(SqlDialect::MySql, sql))
}

/// The page query for `sql`, given its WITH split.
pub open spec fn page_sql_spec(
    sql: Seq<char>,
    cte: Option<(Seq<char>, Seq<char>)>,
    limit: u16,
    offset: u64,
) -> Seq<char> {
    match cte {
        Some((w, b)) => w + ", _lazysql_data AS ("@ + b + ") SELECT * FROM _lazysql_data LIMIT "@
            + decimal(limit as nat) + " OFFSET "@ + decimal(offset as nat),
        None => "SELECT * FROM ("@ + sql + ") AS _subq LIMIT "@ + decimal(limit as nat)
            + " OFFSET "@ + decimal(offset as nat),
    }
}

/// Builds the page query from the query and its WITH split; a query with a
/// WITH clause gets its body as one more common table expression.
pub fn page_sql(sql: &str, cte: Option<(String, String)>, limit: u16, offset: u64) -> (r: String)
    ensures
        r@ == page_sql_spec(
            sql@,
            match cte {
                Some((w, b)) => Some((w@, b@)),
                None => None,
            },
            limit,
            offset,
        ),
{
    let mut data = String::new();
    match cte {
        Some((with_str, body)) => {
            push_str(&mut data, with_str.as_str());
            push_str(&mut data, ", _lazysql_data AS (");
            push_str(&mut data, body.as_str());
            push_str(&mut data, ") SELECT * FROM _lazysql_data LIMIT ");
        },
        None => {
            push_str(&mut data, "SELECT * FROM (");
            push_str(&mut data, sql);
            push_str(&mut data, ") AS _subq LIMIT ");
        },
    }
    push_decimal(&mut data, limit as u64);
    push_str(&mut data, " OFFSET ");
    push_decimal(&mut data, offset);
    data
}

/// Builds the page query for `sql` as MySQL.
pub fn build_pagination_sqls(sql: &str, limit: u16, offset: u64) -> (r: String)
    ensures
        r@ == page_sql_spec(sql@, cte_parts(SqlDialect::MySql, sql@), limit, offset),
{
    let cte = split_cte(SqlDialect::MySql, sql);
    page_sql(sql, cte, limit, offset)
}

/// A value of a MySQL result cell, as the driver hands it over. Floating
/// point numbers come already rendered as text.
#[derive(Debug, Clone)]
pub enum MySqlValue {
    /// SQL `NULL`.
    Null,
    /// Raw bytes: text columns and anything sent as a string.
    Bytes(Vec<u8>),
    /// A signed integer.
    Int(i64),
    /// An unsigned integer.
    UInt(u64),
    /// A `FLOAT` or `DOUBLE`, rendered as Rust renders the float.
    Float(String),
    /// Year, month, day, hour, minute, second, microsecond.
    Date(u16, u8, u8, u8, u8, u8, u32),
    /// Negative, days, hours, minutes, seconds, microseconds.
    Time(bool, u32, u8, u8, u8, u32),
}

/// How a date-time cell is shown: `YYYY-MM-DD hh:mm:ss`, fractions dropped.
pub open spec fn date_text(y: u16, mo: u8, d: u8, h: u8, mi: u8, sec: u8) -> Seq<char> {
    decimal(y as nat) + "-"@ + decimal_2(mo as nat) + "-"@ + decimal_2(d as nat) + " "@
        + decimal_2(h as nat) + ":"@ + decimal_2(mi as nat) + ":"@ + decimal_2(sec as nat)
}

/// How a time cell is shown: the sign, the hours including whole days, then
/// minutes and seconds, fractions dropped.
pub open spec fn time_text(neg: bool, days: u32, h: u8, mi: u8, sec: u8) -> Seq<char> {
    (if neg {
        "-"@
    } else {
        ""@
    }) + decimal_2((days * 24 + h) as nat) + ":"@ + decimal_2(mi as nat) + ":"@ + decimal_2(
        sec as nat,
    )
}

/// `r` is the display text of `val`: `None` for `NULL`; bytes as the text
/// they encode, or `<binary>` when they are not UTF-8; numbers in decimal;
/// dates and times by `date_text` and `time_text`.
pub open spec fn value_text(val: MySqlValue, r: Option<String>) -> bool {
    match val {
        MySqlValue::Null => r.is_none(),
        MySqlValue::Bytes(b) => r matches Some(s) && (if valid_utf8(b@) {
            utf8(s@) == b@
        } else {
            s@ == "<binary>"@
        }),
        MySqlValue::Int(i) => r matches Some(s) && s@ == signed_decimal(i as int),
        MySqlValue::UInt(u) => r matches Some(s) && s@ == decimal(u as nat),
        MySqlValue::Float(f) => r matches Some(s) && s@ == f@,
        MySqlValue::Date(y, mo, d, h, mi, sec, _) => r matches Some(s) && s@ == date_text(
            y,
            mo,
            d,
            h,
            mi,
            sec,
        ),
        MySqlValue::Time(neg, days, h, mi, sec, _) => r matches Some(s) && s@ == time_text(
            neg,
            days,
            h,
            mi,
            sec,
        ),
    }
}

/// Converts one MySQL value to its display text.
pub fn mysql_value_to_string(val: MySqlValue) -> (r: Option<String>)
    ensures
        value_text(val, r),
{
    value_text_of(&val)
}

/// The display text of the value behind `val`.
fn value_text_of(val: &MySqlValue) -> (r: Option<String>)
    ensures
        value_text(*val, r),
{
    match val {
        MySqlValue::Null => None,
        MySqlValue::Bytes(b) => {
            let bytes = b.clone();
            assert(bytes@ =~= b@);
            match string_from_utf8(bytes) {
                Some(s) => Some(s),
                None => Some(owned("<binary>")),
            }
        },
        MySqlValue::Int(i) => {
            let mut s = String::new();
            push_i64(&mut s, *i);
            Some(s)
        },
        MySqlValue::UInt(u) => {
            let mut s = String::new();
            push_decimal(&mut s, *u);
            Some(s)
        },
        MySqlValue::Float(f) => Some(owned(f.as_str())),
        MySqlValue::Date(y, mo, d, h, mi, sec, _) => {
            let mut s = String::new();
            push_decimal(&mut s, *y as u64);
            push_str(&mut s, "-");
            push_decimal_2(&mut s, *mo as u64);
            push_str(&mut s, "-");
            push_decimal_2(&mut s, *d as u64);
            push_str(&mut s, " ");
            push_decimal_2(&mut s, *h as u64);
            push_str(&mut s, ":");
            push_decimal_2(&mut s, *mi as u64);
            push_str(&mut s, ":");
            push_decimal_2(&mut s, *sec as u64);
            Some(s)
        },
        MySqlValue::Time(neg, days, h, mi, sec, _) => {
            let total_h: u64 = *days as u64 * 24 + *h as u64;
            let mut s = if *neg {
                owned("-")
            } else {
                String::new()
            };
            push_decimal_2(&mut s, total_h);
            push_str(&mut s, ":");
            push_decimal_2(&mut s, *mi as u64);
            push_str(&mut s, ":");
            push_decimal_2(&mut s, *sec as u64);
            proof {
                reveal_strlit("");
            }
            Some(s)
        },
    }
}

/// The display text of each value of a row, in order.
pub fn row_to_data(values: Vec<MySqlValue>) -> (r: Vec<Option<String>>)
    ensures
        r@.len() == values@.len(),
        forall|i: int| 0 <= i < r@.len() ==> value_text(values@[i], #[trigger] r@[i]),
{
    let n = values.len();
    let mut out: Vec<Option<String>> = Vec::new();
    let mut i: usize = 0;
    while i < n
        invariant
            n == values@.len(),
            i <= n,
            out@.len() == i,
            forall|k: int| 0 <= k < i ==> value_text(values@[k], #[trigger] out@[k]),
        decreases n - i,
    {
        out.push(value_text_of(&values[i]));
        i += 1;
    }
    out
}

} // verus!
