[package]
name = "greet_ui"
version = "0.1.0"
edition = "2021"
publish = false

[dependencies]
chrono = { version = "*", features = ["unstable-locales"] }
ratatui = "*"
tokio = { version = "*", features = ["sync", "rt", "macros"] }
