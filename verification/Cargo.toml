[package]
name = "gclaw"
version = "0.1.0"
edition = "2021"
publish = false

[dependencies]
aes = "0.8"
anyhow = "1"
base64 = "0.22"
bytes = "1"
cbc = { version = "0.1", features = ["alloc"] }
cpal = "0.15"
hmac = "0.12"
hostname = "0.4"
ndarray = "0.16"
ort = "=2.0.0-rc.9"
rmp-serde = "1"
serde = { version = "1", features = ["derive"] }
serde_json = "1"
sha2 = "0.10"
strsim = "0.11"
thiserror = "2"
tokio = { version = "1", features = ["full"] }
tracing = "0.1"
tracing-subscriber = { version = "0.3", features = ["env-filter"] }
whisper-rs = "0.12"
whoami = "1"
