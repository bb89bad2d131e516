[package]
name = "subbar"
version = "0.1.0"
edition = "2021"
publish = false

[dependencies]
regex = "=1.13.1"
keyring = { version = "=3.6.3", features = ["apple-native", "linux-native", "windows-native"] }
serde_json = "=1.0.154"
chrono = "=0.4.45"
reqwest = { version = "=0.12.28", default-features = false, features = ["json", "rustls-tls"] }
tokio = { version = "=1.54.1", features = ["time", "rt-multi-thread", "macros"] }
log = "=0.4.35"
env_logger = "=0.11.11"

[dev-dependencies]
linux-keyutils = "=0.2.5"
