[package]
name = "target_tester"
version = "0.1.0"
edition = "2021"
publish = false

[dependencies]
byteorder = "1"
regex = "1"
object = "0.28"
probe-rs = "0.18"
clap = { version = "3", features = ["cargo"] }
env_logger = "0.9"
junit-report = "0.7"
log = "0.4"
serde = { version = "1", features = ["derive"] }
serde_json = "1"
