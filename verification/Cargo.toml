[package]
name = "oxker"
version = "0.1.0"
edition = "2021"
publish = false

[dependencies]
bollard = "0.16"
cansi = "2.2"
chrono = "0.4"
futures-util = "0.3"
parking_lot = "0.12"
ratatui = "0.26"
serde = { version = "1", features = ["derive"] }
serde_json = "1"
tokio = { version = "1", features = ["full"] }
uuid = { version = "1", features = ["v4", "fast-rng"] }
