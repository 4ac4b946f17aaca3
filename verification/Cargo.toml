[package]
name = "ihacdn"
version = "0.1.0"
edition = "2021"
publish = false

[dependencies]
askama = "0.14"
axum = { version = "0.8", features = ["multipart"] }
axum-extra = { version = "*", features = ["async-read-body"] }
ipnet = "2"
mime_guess = "2"
rand = "0.9"
redis = { version = "*", features = ["tokio-comp"] }
reqwest = { version = "0.12", default-features = false, features = ["rustls-tls"] }
serde = { version = "1", features = ["derive"] }
serde_json = "1"
tika-magic = "*"
tokio = { version = "1", features = ["full"] }
tokio-cron-scheduler = "*"
tower-http = { version = "*", features = ["cors", "trace"] }
tracing = "0.1"
tracing-subscriber = { version = "0.3", features = ["env-filter"] }
url = "2"
