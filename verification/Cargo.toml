[package]
name = "holos_config"
version = "0.1.0"
edition = "2021"
publish = false

[dependencies]
anyhow = "1"
clap = { version = "4", features = ["derive"] }
env_logger = "*"
glob = "0.3"
ipnet = { version = "2", features = ["serde"] }
local-ip-address = "*"
log = "0.4"
reqwest = { version = "0.12", default-features = false, features = ["blocking", "json"] }
serde = { version = "1", features = ["derive"] }
serde_yaml = "0.9"
syslog = "*"
