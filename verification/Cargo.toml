[package]
name = "scufflecloud"
version = "0.1.0"
edition = "2021"
publish = false

[dependencies]
argon2 = "=0.5.3"
base64 = "=0.22.1"
cedar-policy = "=4.14.1"
chrono = "=0.4.45"
hmac = "=0.12.1"
ipnetwork = "=0.21.1"
mail-builder = "=0.4.4"
pkcs8 = "=0.10.2"
rand = "=0.8.8"
rsa = "=0.9.10"
serde = { version = "=1.0.229", features = ["derive"] }
serde_json = "=1.0.154"
sha2 = "=0.10.9"
thiserror = "=2.0.21"
totp-rs = { version = "=5.7.2", features = ["otpauth", "qr"] }
ulid = "=1.2.1"
url = "=2.5.8"
urlencoding = "=2.1.3"
