[package]
name = "items_api"
version = "0.1.0"
edition = "2021"
publish = false

[dependencies]
chrono = { version = "=0.4.45", features = ["serde"] }
serde = { version = "=1.0.229", features = ["derive"] }
serde_json = "=1.0.151"
actix-web = "=4.15.0"
actix-cors = "=0.7.2"
sqlx = { version = "=0.8.6", default-features = false, features = ["runtime-tokio", "sqlite", "chrono"] }
dotenv = "=0.15.0"
env_logger = "=0.11.11"
log = "=0.4.34"
thiserror = "=1.0.69"
