[package]
name = "reach"
version = "0.1.0"
edition = "2021"
publish = false

[dependencies]
aes-gcm = "0.10"
anyhow = "1"
base64 = "0.22"
chrono = "0.4"
dirs = "5"
hex = "0.4"
log = "0.4"
rand = "0.8"
serde = { version = "1", features = ["derive"] }
serde_json = "1"
sha2 = "0.10"
tokio = { version = "1", features = ["net", "io-util", "sync", "rt", "time"] }
uuid = { version = "1", features = ["v4"] }
x25519-dalek = "2"
