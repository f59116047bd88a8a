[package]
name = "android-sms-gateway"
version = "0.3.0"
edition = "2021"
publish = false

[dependencies]
aes = "=0.8.4"
base64 = "=0.22.1"
cbc = { version = "=0.1.2", features = ["alloc"] }
chrono = { version = "=0.4.45", features = ["serde"] }
cipher = { version = "=0.4.4", features = ["alloc", "block-padding"] }
hex = "=0.4.3"
hmac = "=0.12.1"
pbkdf2 = { version = "=0.12.2", default-features = false, features = ["hmac"] }
percent-encoding = "=2.3.2"
rand = "=0.8.8"
reqwest = { version = "=0.12.28", default-features = false, features = ["json", "rustls-tls"] }
serde = { version = "=1.0.229", features = ["derive"] }
serde_json = "=1.0.154"
sha1 = "=0.10.7"
sha2 = "=0.10.9"
thiserror = "=2.0.21"
url = "=2.5.8"
