[package]
name = "hume"
version = "0.9.0"
edition = "2021"
publish = false

[dependencies]
backoff = { version = "0.4", features = ["tokio"] }
base64 = "0.22"
bytes = "1"
chrono = { version = "0.4", features = ["serde"] }
futures-util = { version = "0.3", features = ["sink"] }
reqwest = { version = "0.12", default-features = false, features = ["json", "stream", "rustls-tls"] }
serde = { version = "1", features = ["derive"] }
serde_json = "1"
thiserror = "1"
tokio = { version = "1", features = ["macros", "rt-multi-thread", "time", "net"] }
tokio-tungstenite = "0.21"
tracing = "0.1"
url = "2"
