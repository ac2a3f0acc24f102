[package]
name = "authguard"
version = "0.1.0"
edition = "2021"
publish = false

[dependencies]
jsonwebtoken = "=9.3.1"
redis = { version = "=0.27.6", features = ["tokio-comp"] }
prometheus = "=0.13.4"
serde = { version = "=1.0.229", features = ["derive"] }
serde_json = "=1.0.154"
axum = "=0.7.9"
tokio = { version = "=1.54.1", features = ["full"] }
reqwest = { version = "=0.12.28", default-features = false, features = ["json"] }
http = "=1.5.0"
hyper = { version = "=1.12.0", features = ["client", "http1"] }
hyper-util = { version = "=0.1.21", features = ["client-legacy", "http1", "tokio"] }
dotenv = "=0.15.0"
lazy_static = "=1.5.1"

[dev-dependencies]
num-bigint = "=0.4.8"
