[package]
name = "blog_engine"
version = "0.1.0"
edition = "2021"
publish = false

[dependencies]
chrono = { version = "=0.4.45", features = ["serde"] }
uuid = { version = "=1.29.0", features = ["v4", "serde"] }
actix-web = "=4.18.1"
actix-identity = "=0.4.0"
actix-web-httpauth = "=0.6.0"
serde = { version = "=1.0.229", features = ["derive"] }
serde_json = "=1.0.154"
sqlx = { version = "=0.7.4", features = ["sqlite", "runtime-tokio", "uuid", "chrono"] }
tinytemplate = "=1.2.1"
env_logger = "=0.9.3"
