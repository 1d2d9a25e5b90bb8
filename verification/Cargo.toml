[package]
name = "auth_service"
version = "0.1.0"
edition = "2021"
publish = false

[dependencies]
validator = "0.16"
uuid = { version = "1", features = ["v4"] }
rand = "0.8"
jsonwebtoken = "9"
argon2 = "0.5"
twox-hash = "1.6"
chrono = "0.4"
axum = "0.7"
axum-extra = { version = "0.9", features = ["cookie"] }
tokio = { version = "1", features = ["rt-multi-thread", "macros", "sync", "net"] }
serde = { version = "1", features = ["derive"] }
serde_json = "1"
redis = "0.27"
sqlx = { version = "0.7", default-features = false, features = ["runtime-tokio", "postgres", "migrate"] }
reqwest = { version = "0.12", default-features = false, features = ["json", "cookies"] }
