[package]
name = "gpui_starter"
version = "0.1.0"
edition = "2021"
publish = false

[dependencies]
uuid = { version = "=1.29.0", features = ["v4"] }
chrono = "=0.4.45"
base64 = "=0.22.1"
sha2 = "=0.10.9"
ed25519-dalek = "=2.2.0"
serde = { version = "=1.0.229", features = ["derive"] }
serde_json = "=1.0.154"
rusqlite = { version = "=0.41.1", features = ["bundled"] }
atomic-write-file = "=0.3.1"
keyring = { version = "3", default-features = false, features = ["linux-native"] }
sys-locale = "0.3"

[dev-dependencies]
tempfile = "=3.27.0"
