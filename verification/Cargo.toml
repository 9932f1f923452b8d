[package]
name = "battery_dispatch"
version = "0.1.0"
edition = "2021"
publish = false

[dependencies]
anyhow = "*"
chrono = "*"
serde = { version = "*", features = ["derive"] }
serde_json = "*"
