[package]
name = "agent_control"
version = "0.1.0"
edition = "2021"
publish = false

[dependencies]
actix-cloud = "*"
derivative = "2"
ecies = "0.2"
enum-as-inner = "*"
miniz_oxide = "*"
parking_lot = "0.12"
prost = "*"
serde = { version = "1", features = ["derive"] }
serde_repr = "0.1"
skynet_api = "*"
tokio = { version = "1", features = ["sync"] }
uuid = { version = "1", features = ["v4"] }
