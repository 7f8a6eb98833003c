[package]
name = "anki_classroom"
version = "0.1.0"
edition = "2021"
publish = false

[dependencies]
argon2 = "0.5"
password-hash = { version = "0.5", features = ["getrandom"] }
chrono = "0.4"
uuid = { version = "1", features = ["v4"] }
serde = { version = "1", features = ["derive"] }
serde_json = "1"
axum = "0.8"
axum-extra = { version = "0.10", features = ["typed-header"] }
sqlx = { version = "0.8", default-features = false, features = ["sqlite", "runtime-tokio", "migrate"] }
tokio = { version = "1", features = ["full"] }
tracing = "0.1"
tracing-subscriber = "0.3"
dotenvy = "0.15"
jsonwebtoken = "9"
fsrs = "*"
