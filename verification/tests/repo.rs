use lazysql::db::repo::db_repo::{format_sql_error, DbError, PgDbErrorInfo};
use lazysql::db::repo::sql_repo::{parse_constraint, ColumnInfo, ConstraintType, FetchRowsResult, RowData};
use lazysql::db::repo::tables_repo;

#[test]
fn sql_repo_fetch_rows_result_stores_columns_and_rows() {
    let result = FetchRowsResult {
        columns: vec![ColumnInfo { name: "id".into() }],
        rows: vec![vec![Some("1".into())]],
        total_count: 1,
    };
    assert_eq!(result.columns.len(), 1);
    assert_eq!(result.rows.len(), 1);
    assert_eq!(result.total_count, 1);
}

#[test]
fn column_info_holds_name() {
    let col = ColumnInfo { name: "email".into() };
    assert_eq!(col.name, "email");
}

#[test]
fn sql_repo_row_data_handles_nulls() {
    let row: RowData = vec![Some("value".into()), None, Some("other".into())];
    assert_eq!(row[0], Some("value".into()));
    assert_eq!(row[1], None);
}

#[test]
fn tables_repo_fetch_rows_result_stores_columns_and_rows() {
    let result = tables_repo::FetchRowsResult {
        columns: vec![tables_repo::ColumnInfo { name: "id".into(), data_type: "int4".into() }],
        rows: vec![vec![Some("1".into())]],
        total_count: 1,
    };
    assert_eq!(result.columns.len(), 1);
    assert_eq!(result.rows.len(), 1);
    assert_eq!(result.total_count, 1);
}

#[test]
fn column_info_holds_name_and_type() {
    let col = tables_repo::ColumnInfo { name: "email".into(), data_type: "varchar".into() };
    assert_eq!(col.name, "email");
    assert_eq!(col.data_type, "varchar");
}

#[test]
fn tables_repo_row_data_handles_nulls() {
    let row: tables_repo::RowData = vec![Some("value".into()), None, Some("other".into())];
    assert_eq!(row[0], Some("value".into()));
    assert_eq!(row[1], None);
}

#[test]
fn parse_constraint_maps_known_kinds() {
    assert_eq!(parse_constraint(Some("PRIMARY KEY"), None), Some(ConstraintType::PrimaryKey));
    assert_eq!(parse_constraint(Some("UNIQUE"), Some("x")), Some(ConstraintType::Unique));
    assert_eq!(
        parse_constraint(Some("FOREIGN KEY"), Some("users")),
        Some(ConstraintType::ForeignKey("users".to_string()))
    );
    assert_eq!(parse_constraint(Some("FOREIGN KEY"), None), None);
    assert_eq!(parse_constraint(Some("CHECK"), None), None);
    assert_eq!(parse_constraint(None, Some("users")), None);
}

#[test]
fn sql_error_message_lists_server_report_fields() {
    let e = DbError::Postgres {
        display: "db error".to_string(),
        db_error: Some(PgDbErrorInfo {
            message: "syntax error".to_string(),
            position: Some("Original(8)".to_string()),
            detail: None,
            hint: Some("check it".to_string()),
            code: "42601".to_string(),
        }),
    };
    assert_eq!(
        format_sql_error(&e),
        "SQL error: syntax error\nPosition: Original(8)\nHint: check it\nSQLSTATE: 42601"
    );
    assert_eq!(
        format_sql_error(&DbError::ConnectionTimeout(2)),
        "SQL error: connection timed out after 2s"
    );
}

#[test]
fn db_error_display_text() {
    assert_eq!(DbError::MySql("boom".to_string()).display_string(), "MySQL error: boom");
    assert_eq!(DbError::NotFound("x".to_string()).display_string(), "Not found: x");
    assert_eq!(
        DbError::ConnectionTimeout(2).display_string(),
        "Connection timed out after 2s"
    );
}
