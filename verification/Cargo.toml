[package]
name = "users_api"
version = "0.1.0"
edition = "2021"
publish = false

[dependencies]
axum = "0.6"
dotenv = "0.15"
futures = "0.3"
hyper = { version = "0.14", features = ["full"] }
mongodb = "2"
serde = { version = "1", features = ["derive"] }
serde_json = "1"
tokio = { version = "1", features = ["full"] }
