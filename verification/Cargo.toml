[package]
name = "multiverse"
version = "0.1.0"
edition = "2021"
publish = false

[dependencies]
imbl = "*"
eyeball-im = "*"
tokio = { version = "*", features = ["macros", "rt-multi-thread", "time"] }
crossterm = "*"
ratatui = "*"
futures-util = "*"
anyhow = "*"
serde_json = "*"
tracing = "*"
tracing-subscriber = { version = "*", features = ["env-filter"] }
tracing-appender = "*"
color-eyre = "*"
