[package]
name = "zigbee_tap"
version = "0.1.0"
edition = "2021"
publish = false

[dependencies]
serde_json = "*"
hex = "*"
anyhow = "*"
clap = { version = "*", features = ["derive"] }
env_logger = "*"
pcap-file = "*"
r-extcap = "*"
tokio = { version = "*", features = ["macros", "rt-multi-thread"] }
tokio-serial = "*"
