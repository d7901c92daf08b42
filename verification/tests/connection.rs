use lazysql::config::{ConnectConfig, PostgresConfig};
use lazysql::state::connection::{
    driver_registry, ConnectState, ConnectionMeta, ConnectionStatus, DriverKind,
    DriverPickerState,
};

#[test]
fn mod_select_next_wraps() {
    let mut state = ConnectState::default();
    state.selected = 1;
    state.select_next(2);
    assert_eq!(state.selected, 0);
}

#[test]
fn select_prev_wraps_from_zero_to_last_item() {
    let mut state = ConnectState::default();
    state.select_prev(3);
    assert_eq!(state.selected, 2);
}

#[test]
fn mod_select_noop_when_empty() {
    let mut state = ConnectState::default();
    state.select_next(0);
    state.select_prev(0);
    assert_eq!(state.selected, 0);
}

#[test]
fn default_inline_form_state_is_closed_without_draft_status() {
    let state = ConnectState::default();
    assert!(!state.form_open);
    assert_eq!(state.draft_status, None);
}

#[test]
fn close_form_resets_inline_form_flags() {
    let mut state = ConnectState::default();
    state.form_open = true;
    state.draft_status = Some(ConnectionStatus::Offline);
    state.close_form();
    assert!(!state.form_open);
    assert_eq!(state.draft_status, None);
}

#[test]
fn connection_meta_name_fallback() {
    let c = ConnectConfig::Postgres(PostgresConfig {
        name: None,
        host: "localhost".into(),
        port: 5432,
        user: "alice".into(),
        db_name: "mydb".into(),
        password: None,
    });
    let meta = ConnectionMeta::from(&c);
    assert_eq!(meta.name, "localhost:5432/mydb");
    assert_eq!(meta.driver, "postgres");
}

#[test]
fn connection_meta_uses_explicit_name() {
    let c = ConnectConfig::Postgres(PostgresConfig {
        name: Some("prod".into()),
        host: "db.prod.io".into(),
        port: 5432,
        user: "app".into(),
        db_name: "prod_db".into(),
        password: None,
    });
    let meta = ConnectionMeta::from(&c);
    assert_eq!(meta.name, "prod");
}

#[test]
fn driver_registry_exposes_supported_drivers() {
    let ids: Vec<&str> = driver_registry().iter().map(|driver| driver.id).collect();
    assert_eq!(ids, vec!["postgres", "mysql"]);
}

#[test]
fn driver_kind_uses_registry_defaults() {
    assert_eq!(DriverKind::Postgres.label(), "postgres");
    assert_eq!(DriverKind::Postgres.default_port(), 5432);
    assert_eq!(DriverKind::MySql.label(), "mysql");
    assert_eq!(DriverKind::MySql.default_port(), 3306);
}

#[test]
fn driver_picker_filters_by_label_and_aliases() {
    let picker = DriverPickerState { query: "pg".to_string(), ..Default::default() };
    let filtered = picker.filtered_drivers();
    assert_eq!(filtered.len(), 1);
    assert_eq!(filtered[0].kind, DriverKind::Postgres);
}

#[test]
fn driver_picker_selection_wraps_filtered_results() {
    let mut picker = DriverPickerState::default();
    picker.select_prev();
    assert_eq!(picker.selected_driver().unwrap().kind, DriverKind::MySql);
    picker.select_next();
    assert_eq!(picker.selected_driver().unwrap().kind, DriverKind::Postgres);
}

#[test]
fn connect_state_opens_driver_picker_before_form() {
    let mut state = ConnectState::default();
    state.open_driver_picker();
    assert!(state.driver_picker_open);
    assert!(!state.form_open);
    assert_eq!(state.driver_picker.selected_driver().unwrap().kind, DriverKind::Postgres);
}

#[test]
fn driver_picker_filter_is_trimmed_and_case_folded() {
    let picker = DriverPickerState { query: "  MariaDB ".to_string(), ..Default::default() };
    let filtered = picker.filtered_drivers();
    assert_eq!(filtered.len(), 1);
    assert_eq!(filtered[0].kind, DriverKind::MySql);
    let none = DriverPickerState { query: "oracle".to_string(), ..Default::default() };
    assert!(none.filtered_drivers().is_empty());
    assert!(none.selected_driver().is_none());
}

#[test]
fn wrapped_moves_undo_each_other() {
    let mut state = ConnectState::default();
    state.selected = 2;
    state.select_next(3);
    assert_eq!(state.selected, 0);
    state.select_prev(3);
    assert_eq!(state.selected, 2);
}
