[package]
name = "api"
version = "0.1.0"
edition = "2021"
publish = false

[dependencies]
sha2 = "=0.10.9"
hex = "=0.4.3"
base64 = "=0.22.1"
rand = "=0.9.5"
jsonwebtoken = "=9.3.1"
uuid = { version = "=1.29.1", features = ["v4", "serde"] }
chrono = "=0.4.45"
serde_json = "=1.0.154"
serde = { version = "=1.0.229", features = ["derive"] }
axum = "=0.8.9"
axum-extra = { version = "=0.10.3", features = ["cookie"] }
sqlx = { version = "=0.8.6", default-features = false, features = ["runtime-tokio", "postgres", "uuid", "chrono", "ipnetwork", "json", "derive"] }
tokio = { version = "=1.54.1", features = ["macros", "rt-multi-thread", "net"] }
time = "=0.3.55"
dotenvy = "=0.15.7"
argon2 = "=0.5.3"
