[package]
name = "gateway"
version = "0.1.0"
edition = "2021"
publish = false

[dependencies]
tokio = { version = "*", features = ["net", "sync", "time", "rt-multi-thread", "io-util", "signal"] }
tokio-util = "*"
dashmap = "*"
base64 = "*"
chrono = "*"
log = "*"
fern = { version = "*", features = ["date-based", "colored"] }
serde = { version = "*", features = ["derive"] }
serde_json = "*"
serde_yaml = "*"
clap = "*"
daemonize = "*"
users = "*"
libc = "*"
