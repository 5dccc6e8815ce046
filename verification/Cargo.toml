[package]
name = "xeta"
version = "0.1.0"
edition = "2021"
publish = false

[dependencies]
axum = { version = "=0.7.9", features = ["multipart"] }
bcrypt = "=0.15.1"
chrono = { version = "=0.4.45", features = ["serde"] }
dotenvy = "=0.15.7"
jsonwebtoken = "=9.3.1"
serde = { version = "=1.0.229", features = ["derive"] }
serde_json = { version = "=1.0.154", features = ["preserve_order", "raw_value"] }
sqlx = { version = "=0.8.6", default-features = false, features = ["runtime-tokio", "postgres", "uuid", "chrono", "migrate", "derive"] }
tokio = { version = "=1.54.1", features = ["full"] }
tower-http = { version = "=0.6.11", features = ["fs"] }
uuid = { version = "=1.29.0", features = ["v4", "serde"] }
