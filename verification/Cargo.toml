[package]
name = "aisil"
version = "0.1.0"
edition = "2021"
publish = false

[dependencies]
tokio = { version = "1", features = ["rt", "rt-multi-thread", "time", "sync"] }
serde_json = "1"
serde_yaml = "0.9"
serde = "1"
