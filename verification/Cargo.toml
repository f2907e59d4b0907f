[package]
name = "ferrumdb"
version = "0.1.0"
edition = "2021"
publish = false

[dependencies]
anyhow = "1"
config = { version = "*", default-features = false, features = ["toml"] }
crossterm = "*"
ratatui = "*"
serde = { version = "1", features = ["derive"] }
sqlx = { version = "*", default-features = false, features = ["postgres", "runtime-tokio"] }
thiserror = "*"
tokio = { version = "1", features = ["full"] }
toml = "*"
tracing = "0.1"
tracing-subscriber = "*"
