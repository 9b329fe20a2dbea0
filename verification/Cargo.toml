[package]
name = "rotor_server"
version = "0.1.0"
edition = "2021"
publish = false

[dependencies]
uuid = { version = "=1.29.0", features = ["v4", "serde"] }
serde = { version = "=1.0.229", features = ["derive"] }
serde_json = "=1.0.154"
tokio = { version = "=1.54.1", features = ["rt-multi-thread", "macros", "net", "io-util", "time", "sync"] }
tokio-stream = { version = "=0.1.19", features = ["sync"] }
futures-util = "=0.3.34"
axum = "=0.8.9"
tracing = "=0.1.44"
tracing-subscriber = "=0.3.23"
dotenvy = "=0.15.7"
questdb-rs = { version = "=7.2.1", default-features = false, features = ["sync-sender-tcp", "sync-sender-http", "tls-webpki-certs", "ring-crypto"] }
iggy = "=0.11.0"
