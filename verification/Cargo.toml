[package]
name = "cosmic-app-list"
version = "0.1.0"
edition = "2021"
publish = false

[dependencies]
serde = { version = "1", features = ["derive"] }
tracing = "0.1"
tracing-log = "0.2"
tracing-subscriber = "0.3"
