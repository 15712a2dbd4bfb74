[package]
name = "gmocoin"
version = "0.1.0"
edition = "2021"
publish = false

[dependencies]
anyhow = "1"
async-stream = "0.3"
axum = "0.6"
backoff = { version = "0.4", features = ["tokio"] }
chrono = "0.4"
clickhouse = "0.11"
config = "0.13"
dotenvy = "0.15"
futures = "0.3"
once_cell = "1"
parking_lot = "0.12"
prometheus = "0.13"
prost = "0.12"
rdkafka = "0.36"
reqwest = { version = "0.11", default-features = false, features = ["stream"] }
serde = { version = "1", features = ["derive"] }
serde_json = "1"
tokio = { version = "1", features = ["full"] }
tokio-stream = { version = "0.1", features = ["io-util"] }
tokio-tungstenite = { version = "0.20", features = ["rustls-tls-webpki-roots"] }
tokio-util = { version = "0.7", features = ["io"] }
tonic = "0.10"
tonic-health = "0.10"
tracing = "0.1"
tracing-subscriber = { version = "0.3", features = ["json", "env-filter", "time"] }
url = "2"
uuid = { version = "1", features = ["v4"] }
