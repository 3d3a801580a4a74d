[package]
name = "session_auth"
version = "0.1.0"
edition = "2021"
publish = false

[dependencies]
anyhow = "1"
argon2 = "=0.5.3"
async-trait = "0.1"
axum = "=0.8.9"
chrono = { version = "0.4", features = ["serde"] }
dotenvy = "0.15"
fred = "=10.1.0"
sea-orm = { version = "=1.1.20", default-features = false, features = ["sqlx-postgres", "runtime-tokio-rustls", "macros", "with-chrono", "with-uuid"] }
serde = { version = "1", features = ["derive"] }
serde_json = "1"
thiserror = "2"
tokio = { version = "1", features = ["macros", "rt-multi-thread", "net"] }
tower-sessions = "=0.14.0"
tower-sessions-redis-store = "=0.16.0"
tracing = "0.1"
tracing-subscriber = "0.3"
uuid = { version = "=1.27.0", features = ["v4", "serde"] }
validator = "=0.20.0"
