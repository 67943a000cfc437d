[package]
name = "fsm"
version = "0.1.0"
edition = "2021"
publish = false

[dependencies]
regex = "1"
serde = { version = "1", features = ["derive"] }
serde_json = "1"
log = "0.4"
env_logger = "0.11"
colored = "2"
notify = "6"
notify-debouncer-full = "0.3"
tokio = { version = "1", features = ["rt", "rt-multi-thread", "macros", "net", "sync", "time"] }
axum = { version = "0.7", features = ["ws"] }
