[package]
name = "ram_core"
version = "0.1.0"
edition = "2021"
publish = false

[dependencies]
aes-gcm = "=0.10.3"
sha2 = "=0.10.9"
base64 = "=0.22.1"
rand = "=0.8.8"
keyring = "=3.6.3"
serde = { version = "=1.0.229", features = ["derive"] }
serde_json = "=1.0.154"
chrono = { version = "=0.4.45", features = ["serde"] }
reqwest = { version = "=0.12.28", default-features = false, features = ["json"] }
tracing = "0.1"
egui = "0.30"
image = "0.25"
rodio = "0.20"
