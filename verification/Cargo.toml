[package]
name = "venture_core"
version = "0.1.0"
edition = "2021"
publish = false

[dependencies]
argon2 = "=0.6.0"
jsonwebtoken = { version = "=11.1.0", features = ["rust_crypto"] }
uuid = { version = "=1.27.0", features = ["v4"] }
serde_json = "=1.0.151"
serde = { version = "=1.0.229", features = ["derive"] }
sqlx = { version = "=0.9.0", default-features = false, features = ["postgres", "runtime-tokio", "uuid", "chrono"] }
tokio = { version = "=1.53.2", features = ["rt-multi-thread", "macros", "net"] }
axum = "=0.8.9"
tower-http = { version = "=0.7.1", features = ["cors"] }
chrono = "=0.4.45"
dotenvy = "=0.15.7"
