[package]
name = "tui_events"
version = "0.1.0"
edition = "2021"
publish = false

[dependencies]
anyhow = "1"
crossterm = "0.28"
ratatui = { version = "0.29", default-features = false, features = ["crossterm"] }
serde_json = "1"
tokio = { version = "1", features = ["sync"] }
tracing = "0.1"
