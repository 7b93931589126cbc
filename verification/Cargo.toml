[package]
name = "record_api"
version = "0.1.0"
edition = "2021"
publish = false

[dependencies]
actix-multipart = "=0.6.2"
actix-web = "=4.18.1"
arangors = "=0.5.5"
bcrypt = "=0.15.1"
chrono = { version = "=0.4.45", features = ["serde"] }
dotenv = "=0.15.0"
futures = "=0.3.34"
mime = "=0.3.17"
sanitize-filename = "=0.3.0"
serde = { version = "=1.0.229", features = ["derive"] }
serde_json = "=1.0.154"
tokio = { version = "=1.54.1", features = ["fs", "io-util", "macros", "rt-multi-thread"] }
validator = "=0.16.1"
