use lazysql::config::{ConnectConfig, PostgresConfig};
use lazysql::db::repo::db_repo::{format_sql_error, DbError};
use lazysql::db::repo::sql_repo::{FetchRowsResult, SqlExecuteResult, TableRef};
use lazysql::state::app::AppState;
use lazysql::state::connection::ConnectionStatus;
use lazysql::state::sql_input::SqlResult;
use lazysql::state::records::RecordsSource;
use lazysql::db::repo::sql_repo::Table;
use lazysql::state::app::rows_per_page_for_height;

fn pg_connect() -> ConnectConfig {
    ConnectConfig::Postgres(PostgresConfig {
        name: None,
        host: "h".to_string(),
        user: "u".to_string(),
        db_name: "d".to_string(),
        port: 5432,
        password: None,
    })
}

fn named_pg_connect(name: &str) -> ConnectConfig {
    ConnectConfig::Postgres(PostgresConfig {
        name: Some(name.to_string()),
        host: "h".to_string(),
        user: "u".to_string(),
        db_name: "d".to_string(),
        port: 5432,
        password: None,
    })
}

fn table(schema: &str, name: &str) -> TableRef {
    TableRef { schema: schema.to_string(), name: name.to_string() }
}

#[test]
fn schema_names_deduped_and_sorted() {
    let mut state = AppState::new(vec![pg_connect()]);
    state.schemas_raw = vec![table("public", "users"), table("public", "posts"), table("auth", "tokens")];
    let names = state.schema_names();
    assert_eq!(names, vec!["auth", "public"]);
}

#[test]
fn table_names_for_schema() {
    let mut state = AppState::new(vec![pg_connect()]);
    state.schemas_raw = vec![table("public", "users"), table("public", "posts"), table("auth", "tokens")];
    let tables = state.table_names_in_schema("public");
    assert!(tables.contains(&"users".to_string()));
    assert!(tables.contains(&"posts".to_string()));
    assert_eq!(tables.len(), 2);
}

#[test]
fn selected_schema_name_returns_none_when_empty() {
    let state = AppState::new(vec![pg_connect()]);
    assert_eq!(state.selected_schema_name(), None);
}

#[test]
fn selected_schema_name_respects_filter() {
    let mut state = AppState::new(vec![pg_connect()]);
    state.schemas_raw = vec![table("auth", "tokens"), table("public", "users")];
    state.search.query = "pub".to_string();
    state.schema_selected = 0;
    assert_eq!(state.selected_schema_name(), Some("public".to_string()));
}

#[test]
fn connect_selected_out_of_bounds_returns_error() {
    let mut state = AppState::new(vec![]);
    let result = state.begin_connect();
    assert!(result.is_err());
    assert!(state.connect.error.is_some());
}

#[test]
fn finish_connect_failure_shows_error_and_marks_offline() {
    let mut state = AppState::new(vec![named_pg_connect("bad")]);
    let idx = state.begin_connect().unwrap();
    state.finish_connect(idx, Err(DbError::ConnectionTimeout(2)));
    assert!(state.connect.error.is_some());
    assert_eq!(state.connection_statuses, vec![ConnectionStatus::Offline]);
}

#[test]
fn filtered_schema_names_empty_query_returns_all() {
    let mut state = AppState::new(vec![pg_connect()]);
    state.schemas_raw = vec![table("public", "users"), table("auth", "tokens")];
    assert_eq!(state.filtered_schema_names(), vec!["auth", "public"]);
}

#[test]
fn filtered_schema_names_filters_by_query() {
    let mut state = AppState::new(vec![pg_connect()]);
    state.schemas_raw = vec![table("public", "users"), table("auth", "tokens")];
    state.search.query = "pub".to_string();
    assert_eq!(state.filtered_schema_names(), vec!["public"]);
}

#[test]
fn filtered_table_names_filters_by_query() {
    let mut state = AppState::new(vec![pg_connect()]);
    state.schemas_raw = vec![table("public", "users"), table("public", "posts")];
    state.search.query = "user".to_string();
    let result = state.filtered_table_names("public");
    assert_eq!(result, vec!["users"]);
}

#[test]
fn select_prev_filtered_schema_wraps_to_last_visible_schema() {
    let mut state = AppState::new(vec![pg_connect()]);
    state.schemas_raw = vec![table("public", "users"), table("auth", "tokens")];
    state.schema_selected = 0;
    state.select_prev_filtered_schema();
    assert_eq!(state.schema_selected, 1);
}

#[test]
fn select_prev_filtered_table_wraps_to_last_visible_table() {
    let mut state = AppState::new(vec![pg_connect()]);
    state.schemas_raw = vec![table("public", "users"), table("public", "posts")];
    state.table_selected = 0;
    state.select_prev_filtered_table("public");
    assert_eq!(state.table_selected, 1);
}

#[test]
fn filtered_connection_indices_filters_by_display_name() {
    let mut state = AppState::new(vec![
        named_pg_connect("Local Dev"),
        named_pg_connect("Staging"),
        named_pg_connect("Production"),
    ]);
    state.search.query = "dev".to_string();
    assert_eq!(state.filtered_connection_indices(), vec![0]);
}

#[test]
fn filtered_connection_indices_matches_case_insensitive() {
    let mut state = AppState::new(vec![named_pg_connect("Local Dev")]);
    state.search.query = "LOCAL".to_string();
    assert_eq!(state.filtered_connection_indices(), vec![0]);
}

#[test]
fn clamp_connection_selection_moves_to_first_visible_match() {
    let mut state = AppState::new(vec![
        named_pg_connect("Local Dev"),
        named_pg_connect("Staging"),
        named_pg_connect("Production"),
    ]);
    state.connect.selected = 0;
    state.search.query = "prod".to_string();
    state.clamp_connection_selection();
    assert_eq!(state.connect.selected, 2);
}

#[test]
fn select_prev_filtered_connection_wraps_to_last_visible_match() {
    let mut state = AppState::new(vec![
        named_pg_connect("Local Dev"),
        named_pg_connect("Staging"),
        named_pg_connect("Production"),
    ]);
    state.search.query = "i".to_string();
    state.connect.selected = 1;
    state.select_prev_filtered_connection();
    assert_eq!(state.connect.selected, 2);
}

#[test]
fn sql_error_message_keeps_context_without_driver_noise() {
    let message = format_sql_error(&DbError::NotFound("Empty query".to_string()));
    assert_eq!(message, "SQL error: Empty query");
}

#[test]
fn selected_filtered_connection_position_is_none_without_match() {
    let mut state = AppState::new(vec![named_pg_connect("Local Dev")]);
    state.search.query = "missing".to_string();
    assert_eq!(state.selected_filtered_connection_position(), None);
}

#[test]
fn new_initializes_unknown_connection_statuses() {
    let state = AppState::new(vec![named_pg_connect("Local Dev"), named_pg_connect("Prod")]);
    assert_eq!(state.connection_statuses, vec![ConnectionStatus::Unknown, ConnectionStatus::Unknown]);
}

#[test]
fn sync_connection_statuses_tracks_connection_count() {
    let mut state = AppState::new(vec![named_pg_connect("Local Dev")]);
    state.set_connection_status(0, ConnectionStatus::Online);
    state.connections_config.push(named_pg_connect("Prod"));
    state.sync_connection_statuses();
    assert_eq!(state.connection_statuses, vec![ConnectionStatus::Online, ConnectionStatus::Unknown]);
    state.connections_config.pop();
    state.sync_connection_statuses();
    assert_eq!(state.connection_statuses, vec![ConnectionStatus::Online]);
}

#[test]
fn remove_connection_at_keeps_statuses_aligned_for_middle_index() {
    let mut state = AppState::new(vec![
        named_pg_connect("Local Dev"),
        named_pg_connect("Staging"),
        named_pg_connect("Prod"),
    ]);
    state.set_connection_status(0, ConnectionStatus::Online);
    state.set_connection_status(1, ConnectionStatus::Offline);
    state.set_connection_status(2, ConnectionStatus::Unknown);
    state.remove_connection_at(1);
    assert_eq!(state.connections_config.len(), 2);
    assert_eq!(state.connection_statuses, vec![ConnectionStatus::Online, ConnectionStatus::Unknown]);
}

#[test]
fn prepare_form_test_hands_back_the_draft_config_without_saving() {
    let mut state = AppState::new(vec![]);
    state.form.values[1] = "127.0.0.1".to_string();
    state.form.values[2] = "1".to_string();
    state.form.values[3] = "postgres".to_string();
    state.form.values[4] = "postgres".to_string();
    let cfg = state.prepare_form_test();
    match cfg {
        Some(ConnectConfig::Postgres(p)) => {
            assert_eq!(p.host, "127.0.0.1");
            assert_eq!(p.port, 1);
        }
        _ => panic!("expected a Postgres config"),
    }
    assert!(state.connections_config.is_empty());
    assert!(state.form.error.is_none());
}

#[test]
fn prepare_form_test_rejects_invalid_draft() {
    let mut state = AppState::new(vec![]);
    state.connect.draft_status = Some(ConnectionStatus::Online);
    assert!(state.prepare_form_test().is_none());
    assert_eq!(state.form.error, Some("Host is required".to_string()));
    assert_eq!(state.connect.draft_status, None);
}

#[test]
fn finish_connect_marks_online() {
    let mut state = AppState::new(vec![named_pg_connect("a"), named_pg_connect("b")]);
    state.connect.selected = 1;
    let idx = state.begin_connect().unwrap();
    assert_eq!(idx, 1);
    state.finish_connect(idx, Ok(()));
    assert_eq!(state.connection_statuses, vec![ConnectionStatus::Unknown, ConnectionStatus::Online]);
    assert!(state.connect.error.is_none());
}

#[test]
fn set_sql_outcome_describes_each_result() {
    let mut state = AppState::new(vec![]);
    state.set_sql_outcome(Ok(SqlExecuteResult::RowsAffected(3)));
    assert!(matches!(state.sql_input.result, Some(SqlResult::Success { rows_affected: 3 })));
    state.set_sql_outcome(Ok(SqlExecuteResult::RowsReturned(FetchRowsResult {
        columns: vec![],
        rows: vec![],
        total_count: 7,
    })));
    assert!(matches!(state.sql_input.result, Some(SqlResult::Rows { count: 7 })));
    state.set_sql_outcome(Err(DbError::MySql("bad".to_string())));
    match &state.sql_input.result {
        Some(SqlResult::Error(m)) => assert_eq!(m, "SQL error: bad"),
        _ => panic!("expected an error"),
    }
}

#[test]
fn clamp_search_selections_limits_both_lists() {
    let mut state = AppState::new(vec![]);
    state.schemas_raw = vec![table("public", "users"), table("public", "posts"), table("auth", "tokens")];
    state.schema_selected = 5;
    state.table_selected = 5;
    state.clamp_search_selections();
    assert_eq!(state.schema_selected, 1);
    assert_eq!(state.table_selected, 1);
}

#[test]
fn rows_per_page_leaves_room_for_chrome() {
    assert_eq!(rows_per_page_for_height(40), 33);
    assert_eq!(rows_per_page_for_height(8), 1);
    assert_eq!(rows_per_page_for_height(3), 1);
}

#[test]
fn begin_table_records_needs_a_table_and_a_schema() {
    let mut state = AppState::new(vec![pg_connect()]);
    assert!(matches!(state.begin_table_records(30), Err(DbError::NotFound(m)) if m == "No table loaded"));
    state.set_loaded_table(vec![Table { name: "users".into() }]);
    assert!(matches!(state.begin_table_records(30), Err(DbError::NotFound(m)) if m == "No schema selected"));
    state.schemas_raw = vec![table("public", "users")];
    let (schema, name, rpp) = state.begin_table_records(30).unwrap();
    assert_eq!((schema.as_str(), name.as_str(), rpp), ("public", "users", 23));
    assert!(matches!(&state.records.source, Some(RecordsSource::Table { schema, table }) if schema == "public" && table == "users"));
    assert_eq!(state.records.rows_per_page, 23);
    assert!(matches!(state.records_page_request(), Ok((RecordsSource::Table { .. }, 23, 0))));
}

#[test]
fn begin_query_records_trims_and_rejects_empty_queries() {
    let mut state = AppState::new(vec![]);
    state.sql_input.query = "   ".into();
    assert!(matches!(state.begin_query_records(20), Err(DbError::NotFound(m)) if m == "Empty query"));
    assert!(matches!(state.records_page_request(), Err(DbError::NotFound(m)) if m == "No records source"));
    state.sql_input.query = "  SELECT 1 ".into();
    let (q, rpp) = state.begin_query_records(20).unwrap();
    assert_eq!((q.as_str(), rpp), ("SELECT 1", 13));
    assert!(matches!(&state.records.source, Some(RecordsSource::Query { sql }) if sql == "SELECT 1"));
}

#[test]
fn statement_to_run_closes_the_editor_when_blank() {
    let mut state = AppState::new(vec![]);
    state.sql_input.active = true;
    state.sql_input.query = " DELETE FROM t ".into();
    assert_eq!(state.statement_to_run().as_deref(), Some("DELETE FROM t"));
    assert!(state.sql_input.active);
    state.sql_input.query = "\n".into();
    assert_eq!(state.statement_to_run(), None);
    assert!(!state.sql_input.active);
    assert!(state.sql_input.query.is_empty());
}

#[test]
fn filtered_connection_moves_undo_each_other() {
    let mut state = AppState::new(vec![
        named_pg_connect("prod-a"),
        named_pg_connect("dev"),
        named_pg_connect("prod-b"),
    ]);
    state.search.query = "prod".into();
    state.connect.selected = 2;
    state.select_next_filtered_connection();
    assert_eq!(state.connect.selected, 0);
    state.select_prev_filtered_connection();
    assert_eq!(state.connect.selected, 2);
    state.select_prev_filtered_connection();
    assert_eq!(state.connect.selected, 0);
    state.select_next_filtered_connection();
    assert_eq!(state.connect.selected, 2);
}
