[package]
name = "posthog_plugin"
version = "0.1.0"
edition = "2021"
publish = false

[dependencies]
posthog-rs = "*"
serde_json = "*"
chrono = "*"
machine-uid = "*"
serde = { version = "*", features = ["derive"] }
thiserror = "*"
parking_lot = "*"
tokio = { version = "*", features = ["sync"] }
