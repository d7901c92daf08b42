//! What the SQL parser says about a piece of SQL text: the kind of its first
//! statement, and the split of a query into its WITH clause and the rest.
use sqlparser::ast::Statement;
use sqlparser::dialect::{MySqlDialect, PostgreSqlDialect};
use sqlparser::parser::Parser;
use vstd::prelude::*;

verus! {

/// The SQL dialect the text is parsed in.
#[derive(Debug, Clone, Copy, PartialEq, Eq, Structural)]
pub enum SqlDialect {
    Postgres,
    MySql,
}

/// The kind of the first statement of a piece of SQL text.
#[derive(Debug, Clone, Copy, PartialEq, Eq, Structural)]
pub enum StatementKind {
    /// The text does not parse.
    Unparsable,
    /// The text parses to no statement at all.
    NoStatement,
    /// A query (`SELECT`, `WITH ... SELECT`, `VALUES`, ...).
    Query,
    /// An `EXPLAIN` statement.
    Explain,
    /// Any other statement.
    Other,
}

/// The kind of the first statement that sqlparser's `Parser::parse_sql` finds
/// in `sql` in the given dialect.
pub uninterp spec fn first_statement(dialect: SqlDialect, sql: Seq<char>) -> StatementKind;

/// Parses `sql` with sqlparser's `Parser::parse_sql` and reports the kind of
/// its first statement; the result is named by `first_statement`, a function of
/// the dialect and the text alone.
#[verifier::external_body]
pub fn first_statement_kind(dialect: SqlDialect, sql: &str) -> (k: StatementKind)
    ensures
        k == first_statement(dialect, sql@),
{
    let parsed = match dialect {
        SqlDialect::Postgres => Parser::parse_sql(&PostgreSqlDialect {}, sql),
        SqlDialect::MySql => Parser::parse_sql(&MySqlDialect {}, sql),
    };
    match parsed {
        Err(_) => StatementKind::Unparsable,
        Ok(stmts) => match stmts.first() {
            None => StatementKind::NoStatement,
            Some(Statement::Query(_)) => StatementKind::Query,
            Some(Statement::Explain { .. }) => StatementKind::Explain,
            Some(_) => StatementKind::Other,
        },
    }
}

/// A statement of this kind returns rows: a query or an `EXPLAIN`.
pub open spec fn returns_rows_spec(kind: StatementKind) -> bool {
    kind == StatementKind::Query || kind == StatementKind::Explain
}

/// Whether a statement of this kind returns rows (a query or an `EXPLAIN`);
/// text that does not parse, or holds no statement, does not.
pub fn returns_rows(kind: StatementKind) -> (r: bool)
    ensures
        r == returns_rows_spec(kind),
{
    match kind {
        StatementKind::Query | StatementKind::Explain => true,
        _ => false,
    }
}

/// For SQL whose first statement is a query with a WITH clause: the WITH
/// clause and the query without it, both as sqlparser prints them.
pub uninterp spec fn cte_parts(dialect: SqlDialect, sql: Seq<char>) -> Option<(Seq<char>, Seq<char>)>;

/// Parses `sql` with sqlparser and, when its first statement is a query with a
/// WITH clause, returns that clause and the rest of the query, each printed by
/// sqlparser's `Display`; the result is named by `cte_parts`.
#[verifier::external_body]
pub fn split_cte(dialect: SqlDialect, sql: &str) -> (r: Option<(String, String)>)
    ensures
        match r {
            Some((w, b)) => cte_parts(dialect, sql@) == Some((w@, b@)),
            None => cte_parts(dialect, sql@).is_none(),
        },
{
    let parsed = match dialect {
        SqlDialect::Postgres => Parser::parse_sql(&PostgreSqlDialect {}, sql),
        SqlDialect::MySql => Parser::parse_sql(&MySqlDialect {}, sql),
    };
    let Statement::Query(mut query) = parsed.ok()?.into_iter().next()? else {
        return None;
    };
    let with = query.with.take()?;
    Some((format!("{with}"), format!("{query}")))
}

} // verus!
