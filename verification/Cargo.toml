[package]
name = "labworks"
version = "0.1.0"
edition = "2021"
publish = false

[dependencies]
serde = { version = "1", features = ["derive"] }
serde_json = "1"
toml = "0.8"
clap = { version = "4", features = ["derive", "env"] }
humantime = "2"
uuid = "1"
url = "2"
chrono = { version = "0.4", features = ["serde"] }
thiserror = "1"
anyhow = "1"
derive_more = { version = "1", features = ["display"] }
rand = "0.8"
rayon = "1"
crossbeam-channel = "0.5"
aes-gcm = "0.10"
walkdir = "2"
image = { version = "0.25", default-features = false, features = ["png", "jpeg"] }
reqwest = { version = "0.12", default-features = false, features = ["blocking", "stream"] }
tokio = { version = "1", features = ["rt", "rt-multi-thread", "macros", "fs", "io-util", "io-std", "sync", "time"] }
futures = "0.3"
rusqlite = { version = "0.32", features = ["bundled"] }
tracing = "0.1"
tracing-subscriber = "0.3"
aws-sdk-s3 = { version = "1", default-features = false }
