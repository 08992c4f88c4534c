[package]
name = "xcelerate"
version = "0.1.0"
edition = "2021"
publish = false

[dependencies]
regex = "1"
base64 = "0.22"
serde = "1"
serde_json = "1"
tokio = { version = "1", features = ["full"] }
tokio-tungstenite = "*"
futures = "0.3"
reqwest = { version = "0.12", default-features = false }
tempfile = "3"
once_cell = "1"
libc = "0.2"
thiserror = "2"
