[package]
name = "smauglys"
version = "0.1.0"
edition = "2021"
publish = false

[dependencies]
log = "0.4"
env_logger = "*"
tempfile = "3"
native-windows-gui = "1"
native-windows-derive = "1"
winlog = "*"
tokio = { version = "1", features = ["process"] }
iced = { version = "0.3", features = ["tokio"] }
