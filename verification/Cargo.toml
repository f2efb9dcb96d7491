[package]
name = "lodestone_core"
version = "0.1.0"
edition = "2021"
publish = false

[dependencies]
axum = "0.6"
axum-auth = "0.4"
chrono = "0.4"
fs_extra = "1"
rcon = "0.6"
serde = { version = "1", features = ["derive"] }
serde_json = "1"
tokio = { version = "1", features = ["fs", "io-util", "macros", "net", "process", "rt", "rt-multi-thread", "sync", "time"] }
tracing = "0.1"
