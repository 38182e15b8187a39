[package]
name = "ironpass"
version = "0.1.0"
edition = "2021"
publish = false

[dependencies]
sha2 = "=0.10.9"
hex = "=0.4.3"
ipnet = "=2.12.2"
serde = { version = "=1.0.229", features = ["derive"] }
serde_json = "=1.0.154"
toml = "=0.8.23"
dirs = "=5.0.1"
gethostname = "=1.1.0"
machine-uid = "=0.6.0"
chrono = "=0.4.45"
uuid = "1"
base64 = "0.22"
bytesize = "1"
