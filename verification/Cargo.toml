[package]
name = "grafter"
version = "0.1.0"
edition = "2021"
publish = false

[dependencies]
anyhow = "1"
async-trait = "0.1"
axum = "0.7"
base64 = "0.22"
bytes = "1"
chrono = { version = "0.4", features = ["serde"] }
fred = "9"
futures = "0.3"
jsonwebtoken = "9"
object_store = { version = "0.11", features = ["aws"] }
rand = "0.8"
reqwest = { version = "0.12", default-features = false, features = ["json", "rustls-tls"] }
serde = { version = "1", features = ["derive"] }
serde_json = "1"
tera = "1"
thiserror = "1"
tokio = { version = "1", features = ["macros", "net", "rt-multi-thread", "sync"] }
tower-http = { version = "0.5", features = ["fs", "set-header"] }
tower-sessions = "0.13"
tower-sessions-redis-store = "0.14"
tracing = "0.1"
tracing-subscriber = { version = "0.3", features = ["env-filter"] }
urlencoding = "2"
uuid = { version = "1", features = ["v4"] }
