//! Result and metadata types of the table repository interface.
use crate::text::{owned, str_eq};
use vstd::prelude::*;

verus! {

/// Result of executing arbitrary SQL.
#[derive(Debug)]
pub enum SqlExecuteResult {
    /// A command changed this many rows.
    RowsAffected(u64),
    /// A query returned this many rows.
    RowsReturned(usize),
}

/// Kind of key constraint a column takes part in.
#[derive(Debug, PartialEq)]
pub enum ConstraintType {
    /// Part of the primary key.
    PrimaryKey,
    /// References the named table.
    ForeignKey(String),
    /// Part of a unique constraint.
    Unique,
}

/// The constraint described by an information-schema `constraint_type` value
/// and, for a foreign key, the referenced table.
pub open spec fn constraint_spec(
    s: Option<Seq<char>>,
    referenced: Option<Seq<char>>,
    r: Option<ConstraintType>,
) -> bool {
    match s {
        None => r.is_none(),
        Some(x) => if x == "PRIMARY KEY"@ {
            r == Some(ConstraintType::PrimaryKey)
        } else if x == "UNIQUE"@ {
            r == Some(ConstraintType::Unique)
        } else if x == "FOREIGN KEY"@ {
            match referenced {
                None => r.is_none(),
                Some(t) => r matches Some(ConstraintType::ForeignKey(u)) && u@ == t,
            }
        } else {
            r.is_none()
        },
    }
}

/// The view of an optional string slice.
pub open spec fn opt_view(s: Option<&str>) -> Option<Seq<char>> {
    match s {
        None => None,
        Some(x) => Some(x@),
    }
}

/// Maps a `constraint_type` value (`PRIMARY KEY`, `UNIQUE`, `FOREIGN KEY`) to a
/// constraint; a foreign key needs the referenced table name.
pub fn parse_constraint(s: Option<&str>, referenced: Option<&str>) -> (r: Option<ConstraintType>)
    ensures
        constraint_spec(opt_view(s), opt_view(referenced), r),
{
    match s {
        None => None,
        Some(x) => {
            if str_eq(x, "PRIMARY KEY") {
                Some(ConstraintType::PrimaryKey)
            } else if str_eq(x, "UNIQUE") {
                Some(ConstraintType::Unique)
            } else if str_eq(x, "FOREIGN KEY") {
                match referenced {
                    None => None,
                    Some(t) => Some(ConstraintType::ForeignKey(owned(t))),
                }
            } else {
                None
            }
        },
    }
}

/// A schema-qualified table as listed by the catalog.
#[derive(Debug)]
pub struct Schema {
    /// Catalog (database) name.
    pub catalog: String,
    /// Schema name.
    pub schema: String,
    /// Table name.
    pub name: String,
}

/// A loaded table with its columns.
#[derive(Debug)]
pub struct Table {
    /// Table name.
    pub name: String,
    /// Columns in declaration order.
    pub fields: Vec<TableField>,
}

/// One column of a table.
#[derive(Debug)]
pub struct TableField {
    /// Column name.
    pub name: String,
    /// Declared data type.
    pub data_type: String,
    /// `YES` or `NO`.
    pub is_nullable: String,
    /// Key constraint on the column, if any.
    pub constraint_type: Option<ConstraintType>,
    /// Default expression, if any.
    pub default: Option<String>,
}

/// Column metadata for a result set.
#[derive(Debug, Clone)]
pub struct ColumnInfo {
    /// Column name.
    pub name: String,
    /// Database type name.
    pub data_type: String,
}

/// Row data as cells; `None` is SQL NULL.
pub type RowData = Vec<Option<String>>;

/// Result of fetching rows with pagination.
#[derive(Debug)]
pub struct FetchRowsResult {
    /// Columns of the result.
    pub columns: Vec<ColumnInfo>,
    /// The rows of the page.
    pub rows: Vec<RowData>,
    /// Number of rows of the whole result.
    pub total_count: u64,
}

} // verus!
