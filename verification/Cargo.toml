[package]
name = "jwk_kit"
version = "0.1.1"
edition = "2021"
publish = false

[dependencies]
p256 = "=0.13.2"
rsa = "=0.9.10"
serde = { version = "=1.0.229", features = ["derive"] }
serde_json = "=1.0.154"
thiserror = "=2.0.21"

[dev-dependencies]
base64 = "=0.22.1"
