[package]
name = "mavlink_network_node"
version = "0.1.0"
edition = "2021"
publish = false

[dependencies]
mavlink = { version = "=0.17.1", default-features = false, features = ["std", "ardupilotmega", "serde"] }
tokio = { version = "=1.54.1", features = ["full"] }
async-trait = "=0.1.92"
tracing = "=0.1.44"
tracing-subscriber = { version = "=0.3.23", features = ["env-filter", "json"] }
tracing-appender = "=0.2.5"
chrono = "=0.4.45"
serde = { version = "=1.0.229", features = ["derive"] }
serde_json = "=1.0.154"
futures = "=0.3.34"
futures-util = "=0.3.34"
tokio-tungstenite = "=0.30.0"
lora-phy = "=3.0.1"
embedded-hal = "=1.0.0"
embedded-hal-async = "=1.0.0"
embedded-hal-bus = { version = "=0.3.0", features = ["async"] }
rppal = { version = "=0.22.1", features = ["hal"] }
