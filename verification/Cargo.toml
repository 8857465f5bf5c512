[package]
name = "conductor"
version = "0.1.0"
edition = "2021"
publish = false

[dependencies]
uuid = { version = "=1.27.0", features = ["v4"] }
chrono = "=0.4.45"
postgres = { version = "=0.19.14", features = ["with-chrono-0_4"] }
serde = { version = "=1.0.229", features = ["derive"] }
serde_json = "=1.0.151"
