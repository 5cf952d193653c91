[package]
name = "stt_core"
version = "0.1.0"
edition = "2021"
publish = false

[dependencies]
futures-util = "=0.3.34"
hound = "=3.5.1"
log = "=0.4.35"
reqwest = { version = "=0.12.28", default-features = false, features = ["json", "multipart", "stream", "rustls-tls"] }
safetensors = "=0.4.5"
serde = { version = "=1.0.229", features = ["derive"] }
serde_json = "=1.0.154"
whisper-apr = { version = "=0.3.3", default-features = false, features = ["std"] }
