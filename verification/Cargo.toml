[package]
name = "token_service"
version = "0.1.0"
edition = "2021"
publish = false

[dependencies]
uuid = { version = "1", features = ["v4"] }
redis = { version = "0.27", features = ["tokio-comp"] }
log = "0.4"
env_logger = "0.11"
dotenv = "0.15"
actix-web = "4"
actix-web-httpauth = "0.8"
argon2 = "0.5"
chrono = { version = "0.4", features = ["serde"] }
serde = { version = "1", features = ["derive"] }
serde_json = "1"
sqlx = { version = "0.8", features = ["mysql", "runtime-tokio", "chrono"] }
