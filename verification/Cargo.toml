[package]
name = "projectying"
version = "0.1.0"
edition = "2021"
publish = false

[dependencies]
anyhow = "=1.0.104"
serde = { version = "=1.0.229", features = ["derive"] }
serde_json = "=1.0.154"
base64 = "=0.23.1"
crossterm = "=0.29.0"
vt100 = "=0.18.1"
csv = "1"
