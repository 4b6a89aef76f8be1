[package]
name = "rs_rok_cli"
version = "0.1.0"
edition = "2021"
publish = false

[dependencies]
rand = "0.8"
serde = { version = "1", features = ["derive"] }
serde_json = "1"
clap = { version = "4", features = ["derive"] }
dirs = "5"
tokio = { version = "1", features = ["rt-multi-thread", "macros", "sync", "time"] }
crossterm = "0.28"
ratatui = "0.29"
reqwest = { version = "0.12", default-features = false }
tracing = "0.1"
tracing-subscriber = { version = "0.3", features = ["env-filter", "json"] }
