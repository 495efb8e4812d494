[package]
name = "larkstack"
version = "0.1.0"
edition = "2021"
publish = false

[dependencies]
hmac = "=0.12.1"
sha2 = "=0.10.9"
hex = "=0.4.3"
base64 = "=0.22.1"
aes = "=0.8.4"
cbc = { version = "=0.1.2", features = ["alloc"] }
serde = { version = "=1.0.229", features = ["derive"] }
serde_json = "=1.0.154"
toml = "=0.8.23"
toml_edit = "=0.22.27"
chrono = "=0.4.45"
chrono-tz = "*"
