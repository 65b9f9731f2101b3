[package]
name = "venkyai"
version = "0.1.0"
edition = "2021"
publish = false

[dependencies]
regex = "=1.13.1"
serde_json = "=1.0.154"
serde = { version = "1", features = ["derive"] }
hound = "=3.5.1"
uuid = { version = "=1.29.0", features = ["v4"] }
chrono = "=0.4.45"
base64 = "=0.22.1"
parking_lot = "0.12"
once_cell = "1"
log = "0.4"
env_logger = "0.11"
futures-util = "0.3"
tokio = { version = "1", features = ["rt", "time"] }
reqwest = { version = "0.12", default-features = false, features = ["json", "multipart", "stream", "rustls-tls"] }
rusqlite = { version = "*", features = ["bundled"] }
image = { version = "0.25", default-features = false, features = ["png"] }
cpal = "0.15"
