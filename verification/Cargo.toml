[package]
name = "cli_batteries"
version = "0.1.0"
edition = "2021"
publish = false

[dependencies]
ansi_term = "0.12"
chrono = "0.4"
serde_json = "1"
tracing = "0.1"
tracing-subscriber = "0.3"
