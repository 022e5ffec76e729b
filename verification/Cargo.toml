[package]
name = "apub_engine"
version = "0.1.0"
edition = "2021"
publish = false

[dependencies]
markdown-it = "=0.6.1"
url = "=2.5.8"
uuid = { version = "=1.29.0", features = ["v4"] }
serde = { version = "=1.0.229", features = ["derive"] }
serde_json = "=1.0.154"
async-trait = "=0.1.92"
once_cell = "=1.21.4"
