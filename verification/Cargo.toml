[package]
name = "airtype_lib"
version = "0.1.0"
edition = "2021"
publish = false

[dependencies]
base64 = "=0.22.1"
dirs = "=5.0.1"
serde = { version = "=1.0.229", features = ["derive"] }
serde_json = "=1.0.154"
log = "=0.4.35"
parking_lot = "=0.12.5"
thiserror = "=1.0.69"
anyhow = "=1.0.104"
env_logger = "=0.11.11"
tokio = { version = "=1.54.1", features = ["full"] }
reqwest = { version = "=0.12.28", default-features = false, features = ["json", "multipart", "rustls-tls"] }
futures-util = "=0.3.34"
http = "=1.5.0"
tokio-tungstenite = { version = "=0.24.0", features = ["rustls-tls-webpki-roots"] }
arboard = "3.4"
rdev = "0.5"
objc = "0.2"
