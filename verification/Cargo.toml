[package]
name = "oss_store"
version = "0.1.0"
edition = "2021"
publish = false

[dependencies]
md5 = "0.7"
log = "0.4"
serde = { version = "1", features = ["derive"] }
serde_json = "1"
tokio = { version = "1", features = ["full"] }
axum = "0.6"
hyper = { version = "0.14", features = ["full"] }
bytes = "1"
tower = { version = "0.4", features = ["timeout", "load-shed", "limit", "util"] }
dotenv = "0.15"
flexi_logger = "0.27"
