[package]
name = "evervox"
version = "0.1.0"
edition = "2021"
publish = false

[dependencies]
hound = "=3.5.1"
anyhow = "=1.0.104"
serde = { version = "=1.0.229", features = ["derive"] }
toml = "=1.1.8"
tokio = { version = "=1.54.1", features = ["macros", "rt-multi-thread", "sync"] }
zbus = "=5.19.0"
notify-rust = "=4.18.2"
reqwest = { version = "=0.12.28", default-features = false, features = ["blocking", "json", "multipart", "rustls-tls"] }
keyring = { version = "=3.6.3", features = ["async-secret-service", "tokio", "crypto-rust"] }
rpassword = "=7.5.4"
cpal = "=0.18.2"
whisper-rs = "=0.16.0"
