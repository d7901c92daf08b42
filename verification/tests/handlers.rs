use lazysql::config::{ConnectConfig, PostgresConfig};
use lazysql::db::repo::sql_repo::{ColumnInfo, TableRef};
use lazysql::handlers::{
    after_connect, after_page_fetch_failed, after_page_fetched, after_records, handle_records, handle, handle_connect, handle_connect_error_popup, handle_database,
    handle_search, save_connection_form, Effect, KeyCode, KeyEvent,
};
use lazysql::state::app::AppState;
use lazysql::state::connection::{ActivePane, ConnectionStatus, DriverKind};
use lazysql::state::mode::AppMode;
use lazysql::state::navigation::{Router, Screen};

fn key(code: KeyCode) -> KeyEvent {
    KeyEvent { code, ctrl: false }
}

fn ch(c: char) -> KeyEvent {
    key(KeyCode::Char(c))
}

fn ctrl(c: char) -> KeyEvent {
    KeyEvent { code: KeyCode::Char(c), ctrl: true }
}

fn named(name: &str) -> ConnectConfig {
    ConnectConfig::Postgres(PostgresConfig {
        name: Some(name.to_string()),
        host: "h".to_string(),
        user: "u".to_string(),
        db_name: "d".to_string(),
        port: 5432,
        password: None,
    })
}

fn db_state() -> AppState {
    let mut state = AppState::new(vec![named("a")]);
    state.schemas_raw = vec![
        TableRef { schema: "public".into(), name: "users".into() },
        TableRef { schema: "public".into(), name: "posts".into() },
        TableRef { schema: "auth".into(), name: "tokens".into() },
    ];
    state
}

fn db_router() -> Router {
    Router::from(vec![Screen::Connect, Screen::Database])
}

#[test]
fn q_on_connection_list_quits() {
    let mut state = AppState::new(vec![]);
    let mut router = Router::new();
    assert_eq!(handle(ch('q'), &mut state, &mut router, false, 80), Effect::Quit);
}

#[test]
fn question_mark_toggles_help() {
    let mut state = AppState::new(vec![]);
    let mut router = Router::new();
    handle(ch('?'), &mut state, &mut router, false, 80);
    assert_eq!(state.mode, AppMode::Help);
    handle(ch('x'), &mut state, &mut router, false, 80);
    assert_eq!(state.mode, AppMode::Help);
    handle(key(KeyCode::Esc), &mut state, &mut router, false, 80);
    assert_eq!(state.mode, AppMode::Normal);
}

#[test]
fn database_down_wraps_and_tab_switches_pane() {
    let mut state = db_state();
    let mut router = db_router();
    handle_database(ch('j'), &mut state, &mut router, true);
    assert_eq!(state.schema_selected, 1);
    handle_database(ch('j'), &mut state, &mut router, true);
    assert_eq!(state.schema_selected, 0);
    handle_database(key(KeyCode::Tab), &mut state, &mut router, true);
    assert_eq!(state.active_pane, ActivePane::Tables);
}

#[test]
fn database_enter_opens_schema_then_table_details() {
    let mut state = db_state();
    let mut router = db_router();
    state.schema_selected = 1;
    let e = handle_database(key(KeyCode::Enter), &mut state, &mut router, true);
    assert_eq!(e, Effect::Done);
    assert_eq!(state.active_pane, ActivePane::Tables);
    assert_eq!(state.selected_schema_name(), Some("public".to_string()));
    state.table_selected = 1;
    let e = handle_database(key(KeyCode::Enter), &mut state, &mut router, true);
    assert_eq!(e, Effect::LoadTableDetails { schema: "public".into(), table: "posts".into() });
    let e = handle_database(ch('r'), &mut state, &mut router, true);
    assert_eq!(e, Effect::LoadRecords { table: "posts".into() });
}

#[test]
fn database_escape_pops_and_colon_needs_connection() {
    let mut state = db_state();
    let mut router = db_router();
    handle_database(ch(':'), &mut state, &mut router, false);
    assert!(!state.sql_input.active);
    handle_database(ch(':'), &mut state, &mut router, true);
    assert!(state.sql_input.active);
    assert_eq!(state.mode, AppMode::Command);
    handle_database(key(KeyCode::Esc), &mut state, &mut router, true);
    assert_eq!(router.current(), Some(&Screen::Connect));
}

#[test]
fn search_keys_edit_query_and_clamp() {
    let mut state = db_state();
    let router = db_router();
    state.search.active = true;
    state.schema_selected = 1;
    handle_search(ch('a'), &mut state, &router);
    handle_search(ch('u'), &mut state, &router);
    assert_eq!(state.search.query, "au");
    assert_eq!(state.schema_selected, 0);
    handle_search(key(KeyCode::Enter), &mut state, &router);
    assert!(!state.search.active);
    assert_eq!(state.search.query, "au");
}

#[test]
fn connect_list_add_delete_and_connect() {
    let mut state = AppState::new(vec![named("a"), named("b")]);
    let mut router = Router::new();
    assert_eq!(handle(ch('d'), &mut state, &mut router, false, 80), Effect::SaveConnections);
    assert_eq!(state.connections_config.len(), 1);
    assert_eq!(handle(key(KeyCode::Enter), &mut state, &mut router, false, 80), Effect::Connect);
    after_connect(true, &mut state, &mut router);
    assert_eq!(router.current(), Some(&Screen::Database));
    let mut state = AppState::new(vec![]);
    let mut router = Router::new();
    handle(ch('a'), &mut state, &mut router, false, 80);
    assert!(state.connect.driver_picker_open);
    assert_eq!(state.mode, AppMode::Insert);
    handle(key(KeyCode::Enter), &mut state, &mut router, false, 80);
    assert!(state.connect.form_open);
    assert_eq!(state.form.values[2], "5432");
}

#[test]
fn form_typing_and_saving() {
    let mut state = AppState::new(vec![]);
    let mut router = Router::new();
    handle(ch('a'), &mut state, &mut router, false, 80);
    handle(key(KeyCode::Enter), &mut state, &mut router, false, 80);
    for (field, text) in [(1, "localhost"), (3, "alice"), (4, "app")] {
        state.form.focused = field;
        for c in text.chars() {
            handle(ch(c), &mut state, &mut router, false, 80);
        }
    }
    assert_eq!(state.form.values[1], "localhost");
    let e = handle(ctrl('s'), &mut state, &mut router, false, 80);
    assert_eq!(e, Effect::SavedForm { refresh: Some(0) });
    assert_eq!(state.connections_config.len(), 1);
    assert!(!state.connect.form_open);
    assert_eq!(state.mode, AppMode::Normal);
}

#[test]
fn form_save_with_missing_fields_keeps_the_form_open() {
    let mut state = AppState::new(vec![]);
    let mut router = Router::new();
    handle(ch('a'), &mut state, &mut router, false, 80);
    handle(key(KeyCode::Enter), &mut state, &mut router, false, 80);
    let e = handle(key(KeyCode::Enter), &mut state, &mut router, false, 80);
    assert_eq!(e, Effect::Done);
    assert!(state.connect.form_open);
    assert_eq!(state.form.error, Some("Host is required".to_string()));
}

#[test]
fn sql_editor_runs_query_for_records() {
    let mut state = db_state();
    let mut router = db_router();
    state.sql_input.open();
    for c in "SELECT 1".chars() {
        handle(ch(c), &mut state, &mut router, true, 80);
    }
    assert_eq!(state.sql_input.query, "SELECT 1");
    assert_eq!(handle(ctrl('e'), &mut state, &mut router, true, 80), Effect::ExecuteSqlForRecords);
    assert!(!state.sql_input.active);
    after_records(true, &mut state, &mut router);
    assert_eq!(router.current(), Some(&Screen::Records));
    assert_eq!(state.mode, AppMode::Result);
}

#[test]
fn sql_editor_runs_statement_and_blank_text_closes() {
    let mut state = db_state();
    let mut router = db_router();
    state.sql_input.open();
    state.sql_input.query = "DELETE FROM t".into();
    state.sql_input.cursor_pos = 13;
    assert_eq!(handle(ctrl('e'), &mut state, &mut router, true, 80), Effect::ExecuteSql);
    state.sql_input.open();
    state.sql_input.query = "   ".into();
    state.sql_input.cursor_pos = 3;
    assert_eq!(handle(ctrl('e'), &mut state, &mut router, true, 80), Effect::Done);
    assert!(state.sql_input.query.is_empty());
    assert_eq!(state.mode, AppMode::Normal);
}

#[test]
fn records_paging_keys() {
    let mut state = AppState::new(vec![]);
    let mut router = Router::from(vec![Screen::Connect, Screen::Records]);
    state.records.rows_per_page = 10;
    state.records.total_count = 25;
    assert_eq!(handle(ch('n'), &mut state, &mut router, true, 80), Effect::FetchNextPage);
    assert_eq!(state.records.offset, 10);
    assert_eq!(handle(ch('p'), &mut state, &mut router, true, 80), Effect::FetchPrevPage);
    assert_eq!(state.records.offset, 0);
    assert_eq!(handle(ch('p'), &mut state, &mut router, true, 80), Effect::Done);
    handle(ch('q'), &mut state, &mut router, true, 80);
    assert_eq!(router.current(), Some(&Screen::Connect));
}

#[test]
fn connect_error_popup_enter_dismisses_and_consumes_input() {
    let mut state = AppState::new(vec![]);
    state.connect.error = Some("failed".to_string());
    let router = Router::new();

    let consumed = handle_connect_error_popup(key(KeyCode::Enter), &mut state, &router);

    assert!(consumed);
    assert!(state.connect.error.is_none());
}

#[test]
fn connect_error_popup_esc_dismisses_and_consumes_input() {
    let mut state = AppState::new(vec![]);
    state.connect.error = Some("failed".to_string());
    let router = Router::new();

    let consumed = handle_connect_error_popup(key(KeyCode::Esc), &mut state, &router);

    assert!(consumed);
    assert!(state.connect.error.is_none());
}

#[test]
fn connect_error_popup_consumes_other_keys_without_dismissing() {
    let mut state = AppState::new(vec![]);
    state.connect.error = Some("failed".to_string());
    let router = Router::new();

    let consumed = handle_connect_error_popup(ch('j'), &mut state, &router);

    assert!(consumed);
    assert!(state.connect.error.is_some());
}

#[test]
fn add_opens_inline_form_without_pushing_screen() {
    let mut state = AppState::new(vec![]);
    let mut router = Router::new();

    handle_connect(ch('a'), &mut state, &mut router);

    assert_eq!(router.current(), Some(&Screen::Connect));
    assert!(state.connect.driver_picker_open);
    assert!(!state.connect.form_open);
    assert_eq!(state.mode, AppMode::Insert);
}

#[test]
fn enter_in_driver_picker_opens_form_for_selected_driver() {
    let mut state = AppState::new(vec![]);
    let mut router = Router::new();
    state.connect.open_driver_picker();
    state.connect.driver_picker.query = "my".to_string();
    state.connect.driver_picker.clamp_selection();
    state.mode = AppMode::Insert;

    handle_connect(key(KeyCode::Enter), &mut state, &mut router);

    assert_eq!(router.current(), Some(&Screen::Connect));
    assert!(!state.connect.driver_picker_open);
    assert!(state.connect.form_open);
    assert_eq!(state.form.driver, DriverKind::MySql);
    assert_eq!(state.form.values[2], "3306");
}

#[test]
fn escape_closes_inline_form_and_returns_to_normal_mode() {
    let mut state = AppState::new(vec![]);
    let mut router = Router::new();
    state.connect.form_open = true;
    state.mode = AppMode::Insert;

    handle_connect(key(KeyCode::Esc), &mut state, &mut router);

    assert_eq!(router.current(), Some(&Screen::Connect));
    assert!(!state.connect.form_open);
    assert_eq!(state.mode, AppMode::Normal);
}

#[test]
fn save_inline_form_applies_existing_draft_status_to_new_connection() {
    let mut state = AppState::new(vec![]);
    let mut router = Router::new();
    state.connect.form_open = true;
    state.mode = AppMode::Insert;
    state.connect.draft_status = Some(ConnectionStatus::Online);
    state.form.values[0] = "local".to_string();
    state.form.values[1] = "127.0.0.1".to_string();
    state.form.values[2] = "5432".to_string();
    state.form.values[3] = "postgres".to_string();
    state.form.values[4] = "postgres".to_string();

    save_connection_form(&mut state, &mut router);

    assert_eq!(state.connections_config.len(), 1);
    assert_eq!(state.connection_status(0), ConnectionStatus::Online);
    assert!(!state.connect.form_open);
    assert_eq!(state.mode, AppMode::Normal);
}

#[test]
fn help_opened_and_closed_returns_to_the_same_screen() {
    let mut state = db_state();
    let mut router = db_router();
    state.schema_selected = 1;
    assert_eq!(handle(ch('?'), &mut state, &mut router, true, 80), Effect::Done);
    assert_eq!(state.mode, AppMode::Help);
    assert_eq!(handle(ch('?'), &mut state, &mut router, true, 80), Effect::Done);
    assert_eq!(state.mode, AppMode::Normal);
    assert_eq!(state.schema_selected, 1);
    assert_eq!(router.current(), Some(&Screen::Database));
}

#[test]
fn escape_never_leaves_the_connect_screen() {
    let mut state = db_state();
    let mut router = db_router();
    handle(key(KeyCode::Esc), &mut state, &mut router, false, 80);
    assert_eq!(router.current(), Some(&Screen::Connect));
    handle(key(KeyCode::Esc), &mut state, &mut router, false, 80);
    handle(ch('h'), &mut state, &mut router, false, 80);
    assert_eq!(router.current(), Some(&Screen::Connect));
}

#[test]
fn delete_with_selection_past_the_end_keeps_connections() {
    let mut state = AppState::new(vec![named("a"), named("b")]);
    let mut router = Router::new();
    state.connect.selected = 5;
    assert_eq!(handle(ch('d'), &mut state, &mut router, false, 80), Effect::SaveConnections);
    assert_eq!(state.connections_config.len(), 2);
    assert_eq!(state.connect.selected, 1);
}

#[test]
fn editor_keys_keep_the_cursor_on_character_starts() {
    let mut state = db_state();
    let mut router = db_router();
    handle(ch(':'), &mut state, &mut router, true, 80);
    assert!(state.sql_input.active);
    handle(ch('é'), &mut state, &mut router, true, 80);
    handle(ch('x'), &mut state, &mut router, true, 80);
    assert_eq!(state.sql_input.query, "éx");
    assert_eq!(state.sql_input.cursor_pos, 3);
    handle(key(KeyCode::Left), &mut state, &mut router, true, 80);
    assert_eq!(state.sql_input.cursor_pos, 2);
    handle(key(KeyCode::Left), &mut state, &mut router, true, 80);
    assert_eq!(state.sql_input.cursor_pos, 0);
    handle(key(KeyCode::Right), &mut state, &mut router, true, 80);
    assert_eq!(state.sql_input.cursor_pos, 2);
    handle(key(KeyCode::Backspace), &mut state, &mut router, true, 80);
    assert_eq!(state.sql_input.query, "x");
    assert_eq!(state.sql_input.cursor_pos, 0);
    handle(key(KeyCode::Delete), &mut state, &mut router, true, 80);
    assert_eq!(state.sql_input.query, "");
    assert_eq!(state.sql_input.cursor_pos, 0);
}

fn records_state_with_layout(min_table_width: u16) -> AppState {
    let mut state = AppState::new(vec![]);
    state.records.columns = vec![
        ColumnInfo { name: "id".to_string() },
        ColumnInfo { name: "title".to_string() },
    ];
    state.records.rows = vec![
        vec![Some("1".to_string()), Some("hello".to_string())],
        vec![Some("2".to_string()), Some("world".to_string())],
    ];
    state.records.rows_per_page = 2;
    state.records.total_count = 2;
    state.records.min_table_width = min_table_width;
    state
}

#[test]
fn records_j_moves_row_down_in_horizontal_layout() {
    let mut state = records_state_with_layout(20);
    let mut router = Router::new();
    handle_records(ch('j'), &mut state, &mut router, 60);
    assert_eq!(state.records.selected_row, 1);
    assert_eq!(state.records.selected_col, 0);
}

#[test]
fn records_l_moves_field_right_in_horizontal_layout() {
    let mut state = records_state_with_layout(20);
    let mut router = Router::new();
    handle_records(ch('l'), &mut state, &mut router, 60);
    assert_eq!(state.records.selected_row, 0);
    assert_eq!(state.records.selected_col, 1);
}

#[test]
fn records_j_moves_field_down_in_vertical_layout() {
    let mut state = records_state_with_layout(200);
    let mut router = Router::new();
    handle_records(ch('j'), &mut state, &mut router, 60);
    assert_eq!(state.records.selected_row, 0);
    assert_eq!(state.records.selected_col, 1);
}

#[test]
fn records_k_moves_field_up_in_vertical_layout() {
    let mut state = records_state_with_layout(200);
    state.records.selected_col = 1;
    let mut router = Router::new();
    handle_records(ch('k'), &mut state, &mut router, 60);
    assert_eq!(state.records.selected_row, 0);
    assert_eq!(state.records.selected_col, 0);
}

#[test]
fn records_l_moves_row_down_in_vertical_layout() {
    let mut state = records_state_with_layout(200);
    let mut router = Router::new();
    handle_records(ch('l'), &mut state, &mut router, 60);
    assert_eq!(state.records.selected_row, 1);
    assert_eq!(state.records.selected_col, 0);
}

#[test]
fn records_moves_stop_at_the_edges_without_more_pages() {
    let mut state = records_state_with_layout(20);
    let mut router = Router::new();
    state.records.selected_row = 1;
    state.records.selected_col = 1;
    assert_eq!(handle_records(ch('j'), &mut state, &mut router, 60), Effect::Done);
    assert_eq!(handle_records(ch('l'), &mut state, &mut router, 60), Effect::Done);
    assert_eq!((state.records.selected_row, state.records.selected_col), (1, 1));
    state.records.selected_row = 0;
    state.records.selected_col = 0;
    assert_eq!(handle_records(ch('k'), &mut state, &mut router, 60), Effect::Done);
    assert_eq!(handle_records(ch('h'), &mut state, &mut router, 60), Effect::Done);
    assert_eq!((state.records.selected_row, state.records.selected_col), (0, 0));
}

#[test]
fn records_moves_past_the_last_row_fetch_the_next_page() {
    let mut state = records_state_with_layout(20);
    let mut router = Router::new();
    state.records.total_count = 5;
    state.records.selected_row = 1;
    assert_eq!(handle_records(ch('j'), &mut state, &mut router, 60), Effect::FetchNextPage);
    assert_eq!(state.records.offset, 2);
    after_page_fetched(false, &mut state);
    assert_eq!(state.records.selected_row, 0);
    assert_eq!(handle_records(ch('k'), &mut state, &mut router, 60), Effect::FetchPrevPageToLastRow);
    assert_eq!(state.records.offset, 0);
    after_page_fetched(true, &mut state);
    assert_eq!(state.records.selected_row, 1);
    assert_eq!(handle_records(ch('n'), &mut state, &mut router, 60), Effect::FetchNextPage);
    after_page_fetch_failed(true, &mut state);
    assert_eq!(state.records.offset, 0);
}

#[test]
fn ctrl_t_opens_the_theme_picker_and_enter_chooses() {
    let mut state = AppState::new(vec![]);
    let mut router = Router::new();
    state.theme_picker.set_names(vec!["gruvbox".to_string(), "dracula".to_string()]);
    assert_eq!(handle(ctrl('t'), &mut state, &mut router, false, 80), Effect::Done);
    assert!(state.theme_picker.open);
    assert_eq!(handle(ch('j'), &mut state, &mut router, false, 80), Effect::Done);
    assert_eq!(
        handle(key(KeyCode::Enter), &mut state, &mut router, false, 80),
        Effect::SaveTheme { name: "gruvbox".to_string() }
    );
    assert!(!state.theme_picker.open);
    assert_eq!(router.current(), Some(&Screen::Connect));
}

#[test]
fn theme_picker_filters_and_escape_cancels() {
    let mut state = AppState::new(vec![]);
    let mut router = Router::new();
    state.theme_picker.set_names(vec!["gruvbox".to_string(), "dracula".to_string()]);
    handle(ctrl('t'), &mut state, &mut router, false, 80);
    handle(ch('g'), &mut state, &mut router, false, 80);
    handle(ch('r'), &mut state, &mut router, false, 80);
    assert_eq!(state.theme_picker.filtered_names(), vec!["gruvbox"]);
    handle(key(KeyCode::Esc), &mut state, &mut router, false, 80);
    assert!(!state.theme_picker.open);
    assert_eq!(state.theme_picker.query, "");
}

#[test]
fn ctrl_t_does_nothing_while_the_form_is_open() {
    let mut state = AppState::new(vec![]);
    let mut router = Router::new();
    state.connect.form_open = true;
    state.mode = AppMode::Insert;
    handle(ctrl('t'), &mut state, &mut router, false, 80);
    assert!(!state.theme_picker.open);
}

#[test]
fn new_state_then_a_opens_the_driver_picker() {
    let mut state = AppState::new(vec![]);
    let mut router = Router::new();
    handle_connect(ch('a'), &mut state, &mut router);
    assert_eq!(router.current(), Some(&Screen::Connect));
    assert!(state.connect.driver_picker_open);
    assert!(!state.connect.form_open);
    assert_eq!(state.mode, AppMode::Insert);
}
