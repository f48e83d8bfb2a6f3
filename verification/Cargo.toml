[package]
name = "task_auth"
version = "0.1.0"
edition = "2021"
publish = false

[dependencies]
actix-identity = "=0.4.0"
actix-session = "=0.5.0"
actix-web = { version = "=4.18.1", features = ["rustls"] }
actix-web-httpauth = "=0.6.0"
env_logger = "=0.11.11"
futures = "=0.3.34"
log = "=0.4.34"
rustls = "=0.20.9"
rustls-pemfile = "=1.0.4"
serde = { version = "=1.0.229", features = ["derive"] }
serde_json = "=1.0.154"
sqlx = { version = "0.7", default-features = false, features = ["sqlite", "runtime-tokio"] }
thiserror = "=1.0.69"
time = "=0.3.55"
