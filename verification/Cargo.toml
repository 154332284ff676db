[package]
name = "ffdb_api"
version = "0.1.0"
edition = "2021"
publish = false

[dependencies]
sha2 = "0.10"
hex = "0.4"
uuid = "1"
url = "2"
chrono = { version = "0.4", default-features = false, features = ["alloc", "std"] }
base64 = "0.22"
ipnet = "2"
serde = { version = "1", features = ["derive"] }
serde_json = "1"
axum = "0.8"
tokio = { version = "1", features = ["rt-multi-thread", "macros", "net", "time", "signal", "sync"] }
thiserror = "2"
tracing = "0.1"
