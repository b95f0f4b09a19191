[package]
name = "pushkind_sms"
version = "0.1.0"
edition = "2021"
publish = false

[dependencies]
phonenumber = "*"
serde = { version = "1", features = ["derive"] }
serde_json = "1"
thiserror = "*"
tokio = { version = "1", features = ["rt-multi-thread", "macros", "sync", "time", "signal"] }
zmq = "*"
aws-config = { version = "1", features = ["behavior-version-latest"] }
aws-sdk-sns = "1"
dotenvy = "*"
env_logger = "*"
log = "*"
