//! Errors shared by the database backends, held as the text the drivers give.
use crate::text::{decimal, push_char, push_decimal, push_str, owned};
use vstd::prelude::*;

verus! {

/// What a PostgreSQL server reported about a failed statement.
#[derive(Debug)]
pub struct PgDbErrorInfo {
    /// Primary message.
    pub message: String,
    /// Error position, in the driver's debug notation (e.g. `Original(8)`).
    pub position: Option<String>,
    /// Detail message.
    pub detail: Option<String>,
    /// Hint message.
    pub hint: Option<String>,
    /// SQLSTATE code.
    pub code: String,
}

/// Error type shared by database backends.
#[derive(Debug)]
pub enum DbError {
    /// Error returned by the PostgreSQL driver: its display text, and the server
    /// report when the server produced the error.
    Postgres { display: String, db_error: Option<PgDbErrorInfo> },
    /// Error returned by the MySQL driver, as its display text.
    MySql(String),
    /// Requested item was not found or cannot be loaded.
    NotFound(String),
    /// Database connection attempt exceeded this many seconds.
    ConnectionTimeout(u64),
}

/// The display text of an error.
pub open spec fn display_spec(e: DbError) -> Seq<char> {
    match e {
        DbError::Postgres { display, db_error: _ } => "Postgres error: "@ + display@,
        DbError::MySql(d) => "MySQL error: "@ + d@,
        DbError::NotFound(m) => "Not found: "@ + m@,
        DbError::ConnectionTimeout(s) => "Connection timed out after "@ + decimal(s as nat) + "s"@,
    }
}

/// The lines describing a server-side PostgreSQL error.
pub open spec fn pg_lines(i: PgDbErrorInfo) -> Seq<char> {
    let l1 = "SQL error: "@ + i.message@;
    let l2 = match i.position {
        Some(p) => l1 + "\n"@ + "Position: "@ + p@,
        None => l1,
    };
    let l3 = match i.detail {
        Some(d) => l2 + "\n"@ + "Detail: "@ + d@,
        None => l2,
    };
    let l4 = match i.hint {
        Some(h) => l3 + "\n"@ + "Hint: "@ + h@,
        None => l3,
    };
    l4 + "\n"@ + "SQLSTATE: "@ + i.code@
}

/// The message shown in the SQL result popup for an error.
pub open spec fn sql_error_spec(e: DbError) -> Seq<char> {
    match e {
        DbError::Postgres { display, db_error } => match db_error {
            None => "SQL error: "@ + display@,
            Some(i) => pg_lines(i),
        },
        DbError::MySql(d) => "SQL error: "@ + d@,
        DbError::NotFound(m) => "SQL error: "@ + m@,
        DbError::ConnectionTimeout(s) => "SQL error: connection timed out after "@ + decimal(
            s as nat,
        ) + "s"@,
    }
}

impl DbError {
    /// The display text of the error.
    pub fn display_string(&self) -> (s: String)
        ensures
            s@ == display_spec(*self),
    {
        match self {
            DbError::Postgres { display, db_error: _ } => {
                let mut s = owned("Postgres error: ");
                push_str(&mut s, display.as_str());
                s
            },
            DbError::MySql(d) => {
                let mut s = owned("MySQL error: ");
                push_str(&mut s, d.as_str());
                s
            },
            DbError::NotFound(m) => {
                let mut s = owned("Not found: ");
                push_str(&mut s, m.as_str());
                s
            },
            DbError::ConnectionTimeout(secs) => {
                let mut s = owned("Connection timed out after ");
                push_decimal(&mut s, *secs);
                push_str(&mut s, "s");
                s
            },
        }
    }
}

/// Formats database errors for the SQL result popup: a server report becomes
/// one line per field present, other errors one `SQL error:` line.
pub fn format_sql_error(error: &DbError) -> (s: String)
    ensures
        s@ == sql_error_spec(*error),
{
    match error {
        DbError::Postgres { display, db_error } => match db_error {
            None => {
                let mut s = owned("SQL error: ");
                push_str(&mut s, display.as_str());
                s
            },
            Some(i) => {
                let mut s = owned("SQL error: ");
                push_str(&mut s, i.message.as_str());
                match &i.position {
                    Some(p) => {
                        push_str(&mut s, "\n");
                        push_str(&mut s, "Position: ");
                        push_str(&mut s, p.as_str());
                    },
                    None => {},
                }
                match &i.detail {
                    Some(d) => {
                        push_str(&mut s, "\n");
                        push_str(&mut s, "Detail: ");
                        push_str(&mut s, d.as_str());
                    },
                    None => {},
                }
                match &i.hint {
                    Some(h) => {
                        push_str(&mut s, "\n");
                        push_str(&mut s, "Hint: ");
                        push_str(&mut s, h.as_str());
                    },
                    None => {},
                }
                push_str(&mut s, "\n");
                push_str(&mut s, "SQLSTATE: ");
                push_str(&mut s, i.code.as_str());
                assert(s@ =~= pg_lines(*i));
                s
            },
        },
        DbError::MySql(d) => {
            let mut s = owned("SQL error: ");
            push_str(&mut s, d.as_str());
            s
        },
        DbError::NotFound(m) => {
            let mut s = owned("SQL error: ");
            push_str(&mut s, m.as_str());
            s
        },
        DbError::ConnectionTimeout(secs) => {
            let mut s = owned("SQL error: connection timed out after ");
            push_decimal(&mut s, *secs);
            push_str(&mut s, "s");
            s
        },
    }
}

/// The error of a database operation attempted with no open connection.
pub fn no_active_connection() -> (e: DbError)
    ensures
        e matches DbError::NotFound(m) && m@ == "No active connection"@,
{
    DbError::NotFound(owned("No active connection"))
}

} // verus!
