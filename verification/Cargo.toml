[package]
name = "okane"
version = "0.1.0"
edition = "2021"
publish = false

[dependencies]
rust_decimal = "=1.43.0"
hmac = "=0.12.1"
sha2 = "0.10"
hex = "=0.4.3"
argon2 = "0.5"
rand = "=0.8.8"
uuid = "=1.29.0"
chrono = { version = "=0.4.45", default-features = false, features = ["clock", "std", "serde"] }
serde = { version = "=1.0.229", features = ["derive"] }
serde_json = "=1.0.154"
jsonwebtoken = "=9.3.1"
axum = "=0.7.9"
axum-extra = { version = "=0.9.6", features = ["cookie"] }
sqlx = { version = "=0.8.6", default-features = false, features = ["runtime-tokio", "postgres", "chrono", "rust_decimal", "uuid", "json", "derive"] }
reqwest = { version = "=0.12.28", default-features = false, features = ["json", "rustls-tls"] }
tokio = { version = "=1.54.1", features = ["macros", "rt-multi-thread", "net"] }
tower-http = { version = "=0.6.11", features = ["cors", "trace"] }
tracing-subscriber = { version = "=0.3.23", features = ["env-filter"] }
dotenvy = "=0.15.7"
anyhow = "=1.0.104"
async-stripe = { version = "0.39", default-features = false, features = ["runtime-tokio-hyper-rustls", "checkout"] }
