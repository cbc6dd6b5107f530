[package]
name = "api_service"
version = "0.1.0"
edition = "2021"
publish = false

[dependencies]
bson = "=2.15.0"
chrono = "=0.4.45"
mongodb = { version = "=2.8.2", default-features = false, features = ["sync"] }
serde = { version = "=1.0.229", features = ["derive"] }
