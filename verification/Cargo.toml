[package]
name = "lazysql"
version = "0.1.0"
edition = "2021"
publish = false

[dependencies]
sqlparser = "*"
serde = { version = "1", features = ["derive"] }
toml = "*"
tokio = { version = "1", features = ["full"] }
tokio-postgres = { version = "*", features = ["with-chrono-0_4", "with-serde_json-1"] }
mysql_async = { version = "*", default-features = false, features = ["minimal"] }
ratatui = "*"
crossterm = { version = "*", features = ["event-stream"] }
futures = "*"
serde_json = "*"
chrono = "*"
