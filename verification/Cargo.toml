[package]
name = "runner_dash"
version = "0.1.0"
edition = "2021"
publish = false

[dependencies]
anyhow = "1"
cli-log = "2"
color-eyre = "0.6"
crossterm = "*"
futures = "0.3"
ratatui = "*"
reqwest = { version = "0.12", features = ["json"] }
serde = { version = "1", features = ["derive"] }
tokio = { version = "1", features = ["rt-multi-thread", "macros", "sync"] }
