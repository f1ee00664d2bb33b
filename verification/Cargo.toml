[package]
name = "ttokk_backend"
version = "0.1.0"
edition = "2021"
publish = false

[dependencies]
regex = "=1.13.1"
hound = "=3.5.1"
serde = { version = "=1.0.229", features = ["derive"] }
serde_json = "=1.0.154"
walkdir = "=2.5.0"
dirs = "=7.0.0"
futures-util = "=0.3.34"
keyring = "=4.2.0"
reqwest = { version = "=0.12.28", features = ["stream"] }
specta = { version = "=2.0.0-rc.22", features = ["derive"] }
specta-typescript = "=0.0.9"
whisper-rs = "=0.16.0"
