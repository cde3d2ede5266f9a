[package]
name = "aether_echo"
version = "0.1.0"
edition = "2021"
publish = false

[dependencies]
keyring = { version = "=3.6.3", features = ["windows-native"] }
base64 = "=0.22.1"
crossbeam-channel = "=0.5.17"
serde = { version = "=1.0.229", features = ["derive"] }
serde_json = "=1.0.154"
reqwest = { version = "=0.12.28", default-features = false, features = ["json", "multipart", "stream", "rustls-tls"] }
tokio = { version = "=1.54.1", features = ["rt-multi-thread", "macros", "time", "fs", "io-util", "sync"] }
rubato = "=0.15.0"
futures-util = "=0.3.34"
anyhow = "=1.0.104"
log = "=0.4.35"
thiserror = "=1.0.69"
