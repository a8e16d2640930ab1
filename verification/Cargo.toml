[package]
name = "session_relay"
version = "0.1.0"
edition = "2021"
publish = false

[dependencies]
uuid = { version = "1", features = ["v4", "serde"] }
serde = { version = "1", features = ["derive"] }
serde_json = "1"
socketioxide = { version = "0.10", features = ["extensions", "state"] }
axum = "0.7"
tokio = { version = "1", features = ["macros", "rt-multi-thread"] }
deadpool-redis = "0.14"
config = { version = "0.14", default-features = false }
dotenvy = "0.15"
tracing = "0.1"
thiserror = "1"
shuttle-runtime = "0.39"
shuttle-axum = "0.39"
shuttle-secrets = "0.39"
