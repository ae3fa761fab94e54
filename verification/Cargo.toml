[package]
name = "tinycms"
version = "0.1.0"
edition = "2021"
publish = false

[dependencies]
sqlparser = "=0.63.0"
sha2 = "=0.11.1"
rand = "=0.8.8"
regex = "=1.13.1"
colored = "=3.1.1"
chrono = { version = "=0.4.45", features = ["serde"] }
serde = { version = "=1.0.229", features = ["derive"] }
serde_json = "=1.0.154"
anyhow = "=1.0.104"
thiserror = "=2.0.21"
uuid = { version = "=1.29.0", features = ["v4", "serde"] }
axum = { version = "=0.8.9", features = ["multipart"] }
axum-extra = { version = "=0.12.6", features = ["cookie"] }
tokio = { version = "=1.54.1", features = ["full"] }
sqlx = { version = "=0.8.6", default-features = false, features = ["runtime-tokio", "postgres", "uuid", "chrono", "json", "migrate", "macros"] }
reqwest = { version = "=0.12.28", default-features = false, features = ["json", "rustls-tls"] }
clap = { version = "=4.6.7", features = ["derive"] }
dotenvy = "=0.15.7"
tracing = "=0.1.44"
tracing-subscriber = { version = "=0.3.23", features = ["env-filter"] }
tower-http = { version = "=0.7.1", features = ["cors", "trace"] }
argon2 = "=0.6.0"
rust-embed = "=8.13.0"
mime_guess = "=2.0.5"
notify = "=8.2.1"
time = "=0.3.55"
aws-sdk-s3 = { version = "=1.157.0", default-features = false, features = ["rt-tokio"] }
