[package]
name = "auth_service"
version = "0.1.0"
edition = "2021"
publish = false

[dependencies]
argon2 = { version = "=0.5.3", features = ["std"] }
jsonwebtoken = "=9.3.1"
uuid = { version = "=1.27.0", features = ["v4"] }
axum = "=0.6.20"
hyper = { version = "=0.14.32", features = ["full"] }
tokio = { version = "1", features = ["rt-multi-thread", "macros"] }
tower-http = { version = "0.4", features = ["trace"] }
serde = { version = "1", features = ["derive"] }
serde_json = "1"
chrono = "0.4"
config = "0.13"
dotenv = "0.15"
env_logger = "0.10"
tracing = "0.1"
tracing-subscriber = "0.3"
