[package]
name = "ncd"
version = "0.1.0"
edition = "2021"
publish = false

[dependencies]
aes = "0.8"
backoff = { version = "0.4", features = ["tokio"] }
cbc = { version = "0.1", features = ["alloc"] }
chrono = "0.4"
cipher = { version = "0.4", features = ["block-padding", "alloc"] }
clap = { version = "4", features = ["derive"] }
env_logger = "0.11"
filetime = "0.2"
futures-util = "0.3"
kdam = "*"
lazy_static = "1"
log = "0.4"
m3u8-rs = "*"
regex = "1"
reqwest = { version = "0.12", default-features = false, features = ["json", "stream"] }
serde_json = "1"
tempfile = "3"
thiserror = "2"
tokio = { version = "1", features = ["rt-multi-thread", "macros", "fs", "io-util", "process", "sync", "signal"] }
