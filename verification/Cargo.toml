[package]
name = "lsmon"
version = "0.1.0"
edition = "2021"
publish = false

[dependencies]
mqtt-protocol = { version = "0.8", default-features = false }
scan_fmt = "0.1"
serde = "1"
serde_derive = "1"
serde_json = "1"
log = "0.4"
env_logger = "0.6"
