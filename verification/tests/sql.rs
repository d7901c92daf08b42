use lazysql::db::mysql::sql as mysql_sql;
use lazysql::db::mysql::sql::MySqlValue;
use lazysql::db::postgres::sql as pg_sql;
use lazysql::db::postgres::sql::PgValue;
use lazysql::db::postgres::tables as pg_tables;
use lazysql::db::table_sql::{count_from_i64, found_tables, has_id_column, mysql_tables_sql, placeholders, query_page, query_total};
use lazysql::db::repo::sql_repo::{ColumnInfo, SqlPage};
use lazysql::db::repo::db_repo::DbError;
use lazysql::db::table_sql::{count_rows_sql, probe_sql, table_page_sql};
use lazysql::db::statement::SqlDialect;

#[test]
fn sql_is_returning_query_detects_select() {
    for sql in ["SELECT 1", "SELECT * FROM users", "select id from posts where id = 1"] {
        assert!(pg_sql::is_returning_query(sql));
        assert!(mysql_sql::is_returning_query(sql));
    }
}

#[test]
fn sql_is_returning_query_detects_with_select() {
    assert!(pg_sql::is_returning_query("WITH cte AS (SELECT 1) SELECT * FROM cte"));
}

#[test]
fn sql_is_returning_query_detects_explain() {
    assert!(pg_sql::is_returning_query("EXPLAIN SELECT 1"));
    assert!(pg_sql::is_returning_query("EXPLAIN ANALYZE SELECT * FROM users"));
    assert!(mysql_sql::is_returning_query("EXPLAIN SELECT 1"));
    assert!(mysql_sql::is_returning_query("EXPLAIN SELECT * FROM users"));
}

#[test]
fn sql_is_returning_query_rejects_dml() {
    for sql in [
        "INSERT INTO users (name) VALUES ('x')",
        "UPDATE users SET name = 'y'",
        "DELETE FROM users WHERE id = 1",
    ] {
        assert!(!pg_sql::is_returning_query(sql));
        assert!(!mysql_sql::is_returning_query(sql));
    }
}

#[test]
fn sql_is_returning_query_rejects_ddl() {
    assert!(!pg_sql::is_returning_query("CREATE TABLE foo (id int)"));
    assert!(!pg_sql::is_returning_query("DROP TABLE foo"));
    assert!(!pg_sql::is_returning_query("ALTER TABLE foo ADD COLUMN bar int"));
    assert!(!mysql_sql::is_returning_query("CREATE TABLE foo (id int)"));
    assert!(!mysql_sql::is_returning_query("DROP TABLE foo"));
}

#[test]
fn sql_is_returning_query_handles_invalid_sql() {
    assert!(!pg_sql::is_returning_query("NOT VALID SQL AT ALL"));
    assert!(!pg_sql::is_returning_query(""));
    assert!(!mysql_sql::is_returning_query("NOT VALID SQL AT ALL"));
    assert!(!mysql_sql::is_returning_query(""));
}

#[test]
fn tables_is_returning_query_detects_select() {
    assert!(pg_tables::is_returning_query("SELECT 1"));
    assert!(pg_tables::is_returning_query("SELECT * FROM users"));
    assert!(pg_tables::is_returning_query("select id from posts where id = 1"));
}

#[test]
fn tables_is_returning_query_detects_with_select() {
    assert!(pg_tables::is_returning_query("WITH cte AS (SELECT 1) SELECT * FROM cte"));
}

#[test]
fn tables_is_returning_query_detects_explain() {
    assert!(pg_tables::is_returning_query("EXPLAIN SELECT 1"));
    assert!(pg_tables::is_returning_query("EXPLAIN ANALYZE SELECT * FROM users"));
}

#[test]
fn tables_is_returning_query_rejects_dml() {
    assert!(!pg_tables::is_returning_query("INSERT INTO users (name) VALUES ('x')"));
    assert!(!pg_tables::is_returning_query("UPDATE users SET name = 'y'"));
    assert!(!pg_tables::is_returning_query("DELETE FROM users WHERE id = 1"));
}

#[test]
fn tables_is_returning_query_rejects_ddl() {
    assert!(!pg_tables::is_returning_query("CREATE TABLE foo (id int)"));
    assert!(!pg_tables::is_returning_query("DROP TABLE foo"));
    assert!(!pg_tables::is_returning_query("ALTER TABLE foo ADD COLUMN bar int"));
}

#[test]
fn tables_is_returning_query_handles_invalid_sql() {
    assert!(!pg_tables::is_returning_query("NOT VALID SQL AT ALL"));
    assert!(!pg_tables::is_returning_query(""));
}

#[test]
fn pagination_wraps_plain_queries() {
    let (count, data) = pg_sql::build_pagination_sqls("SELECT * FROM t", 50, 100);
    assert_eq!(count, "SELECT COUNT(*) FROM (SELECT * FROM t) AS _subq");
    assert_eq!(data, "SELECT * FROM (SELECT * FROM t) AS _subq LIMIT 50 OFFSET 100");
    assert_eq!(
        mysql_sql::build_pagination_sqls("SELECT 1", 5, 0),
        "SELECT * FROM (SELECT 1) AS _subq LIMIT 5 OFFSET 0"
    );
}

#[test]
fn pagination_appends_cte_body_as_another_cte() {
    let (count, data) = pg_sql::build_pagination_sqls("WITH t AS (SELECT 1 AS x) SELECT x FROM t", 10, 0);
    assert!(count.starts_with("WITH t AS (SELECT 1 AS x), _lazysql_count AS (SELECT x FROM t)"));
    assert!(count.ends_with("SELECT COUNT(*) FROM _lazysql_count"));
    assert!(data.ends_with("SELECT * FROM _lazysql_data LIMIT 10 OFFSET 0"));
}

#[test]
fn pagination_sqls_from_given_split() {
    let (count, data) = pg_sql::pagination_sqls("q", Some(("WITH a AS (x)".into(), "SELECT 2".into())), 3, 4);
    assert_eq!(count, "WITH a AS (x), _lazysql_count AS (SELECT 2) SELECT COUNT(*) FROM _lazysql_count");
    assert_eq!(data, "WITH a AS (x), _lazysql_data AS (SELECT 2) SELECT * FROM _lazysql_data LIMIT 3 OFFSET 4");
    assert_eq!(mysql_sql::page_sql("q", None, 1, 2), "SELECT * FROM (q) AS _subq LIMIT 1 OFFSET 2");
}

#[test]
fn mysql_value_null_is_none() {
    assert_eq!(mysql_sql::mysql_value_to_string(MySqlValue::Null), None);
}

#[test]
fn mysql_value_int_to_string() {
    assert_eq!(
        mysql_sql::mysql_value_to_string(MySqlValue::Int(42)),
        Some("42".to_string())
    );
}

#[test]
fn mysql_value_bytes_utf8_to_string() {
    assert_eq!(
        mysql_sql::mysql_value_to_string(MySqlValue::Bytes(b"hello".to_vec())),
        Some("hello".to_string())
    );
}

#[test]
fn mysql_value_bytes_invalid_utf8_returns_binary_placeholder() {
    let val = MySqlValue::Bytes(vec![0xFF, 0xFE]);
    assert_eq!(mysql_sql::mysql_value_to_string(val), Some("<binary>".to_string()));
}

#[test]
fn mysql_value_date_formats_as_datetime() {
    let val = MySqlValue::Date(2024, 3, 15, 10, 30, 45, 0);
    assert_eq!(
        mysql_sql::mysql_value_to_string(val),
        Some("2024-03-15 10:30:45".to_string())
    );
}

#[test]
fn mysql_value_negative_numbers_times_and_rows() {
    assert_eq!(mysql_sql::mysql_value_to_string(MySqlValue::Int(-7)), Some("-7".to_string()));
    assert_eq!(
        mysql_sql::mysql_value_to_string(MySqlValue::UInt(18446744073709551615)),
        Some("18446744073709551615".to_string())
    );
    assert_eq!(
        mysql_sql::mysql_value_to_string(MySqlValue::Time(true, 1, 2, 3, 4, 0)),
        Some("-26:03:04".to_string())
    );
    assert_eq!(
        mysql_sql::mysql_value_to_string(MySqlValue::Time(false, 0, 5, 0, 9, 0)),
        Some("05:00:09".to_string())
    );
    assert_eq!(
        mysql_sql::row_to_data(vec![MySqlValue::Null, MySqlValue::Bytes("é".as_bytes().to_vec())]),
        vec![None, Some("é".to_string())]
    );
}

#[test]
fn postgres_values_render_by_type() {
    assert_eq!(pg_sql::row_value_to_string(PgValue::Null), None);
    assert_eq!(pg_sql::row_value_to_string(PgValue::Bool(true)), Some("true".to_string()));
    assert_eq!(pg_sql::row_value_to_string(PgValue::Int(-32768)), Some("-32768".to_string()));
    assert_eq!(pg_sql::row_value_to_string(PgValue::Oid(4294967295)), Some("4294967295".to_string()));
    assert_eq!(
        pg_sql::row_value_to_string(PgValue::Bytes(vec![0x00, 0xab, 0x10, 0xff])),
        Some("00ab10ff".to_string())
    );
    assert_eq!(
        pg_sql::row_value_to_string(PgValue::Unsupported("tsvector".to_string())),
        Some("<tsvector>".to_string())
    );
    assert_eq!(
        pg_sql::row_value_to_string(PgValue::Rendered("{\"a\":1}".to_string())),
        Some("{\"a\":1}".to_string())
    );
}

#[test]
fn table_queries_quote_identifiers_per_dialect() {
    assert_eq!(
        count_rows_sql(SqlDialect::Postgres, "public", "my\"table"),
        "SELECT COUNT(*) FROM \"public\".\"my\"\"table\""
    );
    assert_eq!(
        probe_sql(SqlDialect::MySql, "shop", "or`ders"),
        "SELECT * FROM `shop`.`or``ders` LIMIT 0"
    );
    assert_eq!(
        table_page_sql(SqlDialect::Postgres, "public", "users", true, 50, 100),
        "SELECT * FROM \"public\".\"users\" ORDER BY \"id\" LIMIT 50 OFFSET 100"
    );
    assert_eq!(
        table_page_sql(SqlDialect::MySql, "shop", "logs", false, 10, 0),
        "SELECT * FROM `shop`.`logs` LIMIT 10 OFFSET 0"
    );
}

#[test]
fn table_lookup_helpers() {
    assert!(has_id_column(&[ColumnInfo { name: "name".into() }, ColumnInfo { name: "id".into() }]));
    assert!(!has_id_column(&[ColumnInfo { name: "ID".into() }]));
    assert_eq!(count_from_i64(-1), 0);
    assert_eq!(count_from_i64(42), 42);
    assert_eq!(placeholders(0), "");
    assert_eq!(placeholders(3), "?, ?, ?");
    assert_eq!(
        mysql_tables_sql(2),
        "SELECT DISTINCT table_name FROM information_schema.columns WHERE table_name IN (?, ?) ORDER BY table_name"
    );
    let p = query_page(None);
    assert_eq!((p.limit, p.offset), (100, 0));
    let p = query_page(Some(SqlPage { limit: 5, offset: 7 }));
    assert_eq!((p.limit, p.offset), (5, 7));
    assert_eq!(query_total(200, 13), 213);
    assert!(matches!(found_tables(0, vec!["a".into()]), Err(DbError::NotFound(m)) if m == "Tables not found"));
    assert!(matches!(found_tables(2, vec![]), Err(DbError::NotFound(_))));
    assert_eq!(found_tables(1, vec!["a".into()]).unwrap(), vec!["a".to_string()]);
}
