use lazysql::config::{ConnectConfig, MySqlConfig, PostgresConfig};
use lazysql::state::connection::form::{FormState, FIELD_COUNT};
use lazysql::state::connection::DriverKind;

fn filled_form(name: &str, host: &str, port: &str, user: &str, db: &str, pw: &str) -> FormState {
    let mut f = FormState::default();
    f.values[0] = name.to_string();
    f.values[1] = host.to_string();
    f.values[2] = port.to_string();
    f.values[3] = user.to_string();
    f.values[4] = db.to_string();
    f.values[5] = pw.to_string();
    f
}

fn postgres_config(form: &FormState) -> PostgresConfig {
    let ConnectConfig::Postgres(cfg) = form.to_connect_config().unwrap() else {
        panic!("Expected Postgres variant");
    };
    cfg
}

#[test]
fn valid_input_returns_config() {
    let f = filled_form("local", "localhost", "5432", "alice", "mydb", "secret");
    let cfg = postgres_config(&f);
    assert_eq!(cfg.name, Some("local".to_string()));
    assert_eq!(cfg.host, "localhost");
    assert_eq!(cfg.port, 5432);
    assert_eq!(cfg.user, "alice");
    assert_eq!(cfg.db_name, "mydb");
    assert_eq!(cfg.password, Some("secret".to_string()));
}

#[test]
fn empty_port_defaults_to_5432() {
    let f = filled_form("", "localhost", "", "alice", "mydb", "");
    let cfg = postgres_config(&f);
    assert_eq!(cfg.port, 5432);
    assert_eq!(cfg.name, None);
}

#[test]
fn empty_password_gives_none() {
    let f = filled_form("", "localhost", "5432", "alice", "mydb", "");
    let cfg = postgres_config(&f);
    assert_eq!(cfg.password, None);
}

#[test]
fn empty_host_returns_error() {
    let f = filled_form("", "", "5432", "alice", "mydb", "");
    assert!(f.to_connect_config().is_err());
}

#[test]
fn empty_user_returns_error() {
    let f = filled_form("", "localhost", "5432", "", "mydb", "");
    assert!(f.to_connect_config().is_err());
}

#[test]
fn empty_db_returns_error() {
    let f = filled_form("", "localhost", "5432", "alice", "", "");
    assert!(f.to_connect_config().is_err());
}

#[test]
fn invalid_port_returns_error() {
    let f = filled_form("", "localhost", "notaport", "alice", "mydb", "");
    assert!(f.to_connect_config().is_err());
}

#[test]
fn next_field_wraps() {
    let mut f = FormState::default();
    f.focused = 5;
    f.next_field();
    assert_eq!(f.focused, 0);
}

#[test]
fn prev_field_wraps() {
    let mut f = FormState::default();
    f.prev_field();
    assert_eq!(f.focused, FIELD_COUNT - 1);
}

#[test]
fn form_reset_clears_all() {
    let mut f = filled_form("n", "h", "5432", "u", "d", "pw");
    f.focused = 3;
    f.error = Some("err".to_string());
    f.reset();
    assert_eq!(f.focused, 0);
    assert!(f.error.is_none());
    assert!(f.values[0].is_empty());
}

#[test]
fn from_postgres_config_prefills_edit_form() {
    let cfg = PostgresConfig {
        name: Some("prod".into()),
        host: "db.prod".into(),
        user: "app".into(),
        db_name: "main".into(),
        port: 5433,
        password: Some("secret".into()),
    };
    let form = FormState::from_postgres_config(&cfg, Some(2));
    assert_eq!(form.editing_index, Some(2));
    assert_eq!(form.values[0], "prod");
    assert_eq!(form.values[1], "db.prod");
    assert_eq!(form.values[2], "5433");
    assert_eq!(form.values[3], "app");
    assert_eq!(form.values[4], "main");
    assert_eq!(form.values[5], "secret");
}

#[test]
fn new_for_driver_sets_postgres_defaults() {
    let form = FormState::new_for_driver(DriverKind::Postgres);
    assert_eq!(form.driver, DriverKind::Postgres);
    assert_eq!(form.values[2], "5432");
}

#[test]
fn new_for_driver_sets_mysql_defaults() {
    let form = FormState::new_for_driver(DriverKind::MySql);
    assert_eq!(form.driver, DriverKind::MySql);
    assert_eq!(form.values[2], "3306");
}

#[test]
fn valid_input_returns_connect_config_for_selected_driver() {
    let mut form = filled_form("shop", "mysql.local", "", "root", "shop", "secret");
    form.driver = DriverKind::MySql;
    let cfg = form.to_connect_config().unwrap();
    let ConnectConfig::MySql(cfg) = cfg else {
        panic!("Expected MySql variant");
    };
    assert_eq!(cfg.name, Some("shop".to_string()));
    assert_eq!(cfg.host, "mysql.local");
    assert_eq!(cfg.user, "root");
    assert_eq!(cfg.db_name, "shop");
    assert_eq!(cfg.port, 3306);
    assert_eq!(cfg.password, Some("secret".to_string()));
}

#[test]
fn from_connect_config_prefills_mysql_edit_form() {
    let cfg = ConnectConfig::MySql(MySqlConfig {
        name: Some("shop".into()),
        host: "mysql.local".into(),
        user: "root".into(),
        db_name: "shop".into(),
        port: 3307,
        password: None,
    });
    let form = FormState::from_connect_config(&cfg, Some(1));
    assert_eq!(form.driver, DriverKind::MySql);
    assert_eq!(form.editing_index, Some(1));
    assert_eq!(form.values[0], "shop");
    assert_eq!(form.values[1], "mysql.local");
    assert_eq!(form.values[2], "3307");
    assert_eq!(form.values[3], "root");
    assert_eq!(form.values[4], "shop");
    assert_eq!(form.values[5], "");
}

#[test]
fn error_messages_name_the_first_problem() {
    let f = filled_form("", " ", "x", "", "", "");
    assert_eq!(f.to_connect_config().unwrap_err(), "Host is required");
    let f = filled_form("", "h", "x", " ", "", "");
    assert_eq!(f.to_connect_config().unwrap_err(), "User is required");
    let f = filled_form("", "h", "x", "u", "", "");
    assert_eq!(f.to_connect_config().unwrap_err(), "Database is required");
    let f = filled_form("", "h", "70000", "u", "d", "");
    assert_eq!(f.to_connect_config().unwrap_err(), "Port must be a number 1–65535");
}

#[test]
fn fields_are_trimmed_and_plus_sign_port_parses() {
    let f = filled_form("  main ", " localhost ", " +6543 ", " bob ", " app ", "  ");
    let cfg = postgres_config(&f);
    assert_eq!(cfg.name, Some("main".to_string()));
    assert_eq!(cfg.host, "localhost");
    assert_eq!(cfg.port, 6543);
    assert_eq!(cfg.user, "bob");
    assert_eq!(cfg.db_name, "app");
    assert_eq!(cfg.password, None);
}

#[test]
fn prefilled_form_round_trips_to_the_same_config() {
    let cfg = PostgresConfig {
        name: Some("prod".into()),
        host: "db.prod".into(),
        user: "app".into(),
        db_name: "main".into(),
        port: 5433,
        password: Some("secret".into()),
    };
    let form = FormState::from_postgres_config(&cfg, None);
    let back = postgres_config(&form);
    assert_eq!(back.name, cfg.name);
    assert_eq!(back.host, cfg.host);
    assert_eq!(back.user, cfg.user);
    assert_eq!(back.db_name, cfg.db_name);
    assert_eq!(back.port, cfg.port);
    assert_eq!(back.password, cfg.password);
}

#[test]
fn edit_form_saves_an_unchanged_mysql_connection_as_it_was() {
    let cfg = ConnectConfig::MySql(MySqlConfig {
        name: None,
        host: "127.0.0.1".into(),
        user: "root".into(),
        db_name: "shop".into(),
        port: 0,
        password: None,
    });
    let form = FormState::from_connect_config(&cfg, Some(0));
    let Ok(ConnectConfig::MySql(back)) = form.to_connect_config() else {
        panic!("Expected MySql variant");
    };
    assert_eq!(back.name, None);
    assert_eq!(back.host, "127.0.0.1");
    assert_eq!(back.user, "root");
    assert_eq!(back.db_name, "shop");
    assert_eq!(back.port, 0);
    assert_eq!(back.password, None);
}

#[test]
fn focus_moves_wrap_from_outside_the_fields() {
    let mut f = FormState::default();
    f.focused = 7;
    f.next_field();
    assert_eq!(f.focused, 2);
    f.focused = 7;
    f.prev_field();
    assert_eq!(f.focused, 0);
}
