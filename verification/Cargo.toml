[package]
name = "spotiline"
version = "1.1.0"
edition = "2021"
publish = false

[dependencies]
anyhow = "1"
bincode = "1"
chrono = "0.4"
clap = { version = "4", features = ["derive"] }
crossterm = "0.29"
dirs = "6"
keyring = { version = "3", features = ["linux-native"] }
open = "5"
ratatui = "*"
rspotify = { version = "*", default-features = false, features = ["client-reqwest", "reqwest-rustls-tls"] }
serde = { version = "1", features = ["derive"] }
serde_json = "1"
tokio = { version = "1", features = ["full"] }
toml = "*"
tracing = "0.1"
tracing-appender = "0.2"
tracing-subscriber = { version = "0.3", features = ["env-filter", "fmt"] }
