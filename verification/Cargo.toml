[package]
name = "watchtower_client"
version = "0.2.0"
edition = "2021"
publish = false

[dependencies]
rand = "0.8"
uuid = { version = "1", features = ["v4"] }
serde = { version = "1", features = ["derive"] }
serde_json = "1"
reqwest = { version = "0.11", default-features = false, features = ["json"] }
tokio = { version = "1", features = ["sync", "time", "rt", "rt-multi-thread"] }
actix = "0.13"
pyo3 = "0.20"
log = "0.4"
