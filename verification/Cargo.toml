[package]
name = "device_gateway"
version = "0.1.0"
edition = "2021"
publish = false

[dependencies]
serde_json = "1"
tokio = { version = "1", features = ["sync", "macros", "rt-multi-thread", "net"] }
serde = { version = "1", features = ["derive"] }
axum = { version = "0.7", features = ["ws"] }
axum-extra = { version = "0.9", features = ["cookie"] }
tower-http = { version = "0.5", features = ["cors"] }
tower-cookies = "0.10"
cookie = "0.18"
http = "1"
sqlx = { version = "0.7", default-features = false, features = ["runtime-tokio", "sqlite"] }
argon2 = "0.5"
jwt = "0.16"
hmac = "0.12"
sha2 = "0.10"
anyhow = "1"
dotenvy = "0.15"
lazy_static = "1"
