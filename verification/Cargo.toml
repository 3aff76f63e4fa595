[package]
name = "neon_cli"
version = "0.1.0"
edition = "2021"
publish = false

[dependencies]
anyhow = "1"
clap = { version = "4", features = ["derive"] }
crossterm = "0.28"
dirs = "6"
inquire = "0.7"
json_comments = "0.2"
ratatui = "0.29"
sea-orm = { version = "1", default-features = false, features = ["sqlx-sqlite", "runtime-tokio-rustls", "macros", "with-chrono"] }
serde = { version = "1", features = ["derive"] }
serde_json = "1"
serde_yaml_ng = "0.10"
sqlx = { version = "0.8", features = ["sqlite", "runtime-tokio", "migrate"] }
toml = "0.8"
