[package]
name = "slog_loggly"
version = "0.1.0"
edition = "2021"
publish = false

[dependencies]
reqwest = { version = "*", default-features = false, features = ["blocking"] }
serde = "*"
serde_json = "*"
slog = "*"
slog-async = "*"
