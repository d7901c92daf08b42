use lazysql::config::storage::{ConfigStorage, StoredConfig, StoredConnection, StoredConnections};
use lazysql::config::{ConnectConfig, MySqlConfig, PostgresConfig};

fn pg(name: &str) -> ConnectConfig {
    ConnectConfig::Postgres(PostgresConfig {
        name: Some(name.into()),
        host: "localhost".into(),
        user: "alice".into(),
        db_name: "app".into(),
        port: 5432,
        password: Some("pw".into()),
    })
}

fn my(name: &str) -> ConnectConfig {
    ConnectConfig::MySql(MySqlConfig {
        name: Some(name.into()),
        host: "mysql".into(),
        user: "root".into(),
        db_name: "shop".into(),
        port: 3306,
        password: None,
    })
}

#[test]
fn load_returns_empty_without_stored_config() {
    assert!(ConfigStorage::load(None).is_empty());
}

#[test]
fn save_then_load_keeps_postgres_before_mysql() {
    let saved = ConfigStorage::save(&[my("m1"), pg("p1"), pg("p2")]);
    assert_eq!(saved.connections.postgres.len(), 2);
    assert_eq!(saved.connections.mysql.len(), 1);
    let loaded = ConfigStorage::load(Some(saved));
    let names: Vec<String> = loaded
        .iter()
        .map(|c| match c {
            ConnectConfig::Postgres(p) => format!("pg:{}", p.name.clone().unwrap()),
            ConnectConfig::MySql(m) => format!("my:{}", m.name.clone().unwrap()),
        })
        .collect();
    assert_eq!(names, vec!["pg:p1", "pg:p2", "my:m1"]);
}

#[test]
fn load_reads_stored_entries() {
    let stored = StoredConfig {
        connections: StoredConnections {
            postgres: vec![StoredConnection {
                name: None,
                host: "h".into(),
                user: "u".into(),
                db_name: "d".into(),
                port: 1,
                password: None,
            }],
            mysql: vec![],
        },
    };
    let loaded = ConfigStorage::load(Some(stored));
    match &loaded[0] {
        ConnectConfig::Postgres(p) => {
            assert_eq!(p.host, "h");
            assert_eq!(p.port, 1);
        }
        _ => panic!("expected postgres"),
    }
}

#[test]
fn connection_string_lists_parameters() {
    let c = PostgresConfig {
        name: None,
        host: "localhost".into(),
        user: "alice".into(),
        db_name: "app".into(),
        port: 5432,
        password: Some("pw".into()),
    };
    assert_eq!(c.connection_string(), "host=localhost user=alice dbname=app port=5432 password=pw");
    let c = PostgresConfig { password: None, ..c };
    assert_eq!(c.connection_string(), "host=localhost user=alice dbname=app port=5432");
}
