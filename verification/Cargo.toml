[package]
name = "rig-budget-guard"
version = "0.1.0"
edition = "2021"
publish = false

[dependencies]
rig-core = "0.38"
conservation-checker = "0.1"
serde = { version = "1", features = ["derive"] }
serde_json = "1"
uuid = { version = "1", features = ["v4", "serde"] }
chrono = { version = "0.4", features = ["serde"] }
