[package]
name = "vnkey"
version = "0.1.0"
edition = "2021"
publish = false

[dependencies]
rdev = { version = "=0.5.3", features = ["unstable_grab"] }
serde = { version = "=1.0.229", features = ["derive"] }
serde_json = "=1.0.154"
base64 = "=0.22.1"
