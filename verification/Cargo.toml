[package]
name = "vehicle-information-service"
version = "0.1.0"
edition = "2021"
publish = false

[dependencies]
http = "=1.5.0"
log = "=0.4.34"
serde = { version = "=1.0.229", features = ["derive"] }
serde_json = "=1.0.154"
uuid = { version = "1", features = ["serde"] }
