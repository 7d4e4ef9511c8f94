[package]
name = "cah_backend"
version = "0.1.0"
edition = "2021"
publish = false

[dependencies]
nanoid = "0.4"
chrono = "0.4"
axum = "0.7"
axum-extra = { version = "0.9", features = ["typed-header"] }
tokio = { version = "1", features = ["macros", "rt-multi-thread", "net"] }
mongodb = "2"
bson = "2"
serde = { version = "1", features = ["derive"] }
serde_json = "1"
clap = { version = "4", features = ["derive"] }
tower-http = { version = "0.5", features = ["cors", "normalize-path", "trace"] }
tracing = "0.1"
tracing-subscriber = "0.3"
