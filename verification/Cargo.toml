[package]
name = "ucli"
version = "0.1.0"
edition = "2021"
publish = false

[dependencies]
anyhow = "1"
bytes = "1"
clap = "4"
crossbeam = "0.8"
crossterm = "0.27"
dashmap = "5"
futures = "0.3"
gethostname = "0.4"
mdns-sd = "0.7"
names = { version = "0.14", default-features = false }
socket2 = "0.5"
tokio = { version = "1", features = ["rt-multi-thread", "net", "sync", "macros", "io-util", "time"] }
tokio-util = { version = "0.7", features = ["codec"] }
tracing = "0.1"
tracing-subscriber = "0.3"
uuid = { version = "1", features = ["v4"] }

[dev-dependencies]
bincode = "1.3"
