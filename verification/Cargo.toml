[package]
name = "maa_se"
version = "0.1.0"
edition = "2021"
publish = false

[dependencies]
semver = "=1.0.28"
chrono = { version = "=0.4.45", default-features = false, features = ["std"] }
itertools = "=0.14.0"
dashmap = "=6.2.1"
serde = { version = "=1.0.229", features = ["derive"] }
serde_json = { version = "=1.0.154", features = ["preserve_order"] }
anyhow = "=1.0.104"
log = "=0.4.34"
log4rs = "=1.4.0"
tokio = { version = "=1.54.1", features = ["rt-multi-thread", "macros", "fs", "sync", "time", "io-util", "io-std"] }
reqwest = { version = "=0.12.28", default-features = false, features = ["json", "rustls-tls"] }
zip = { version = "=9.1.0", default-features = false, features = ["deflate"] }
tar = "=0.4.46"
flate2 = "=1.1.10"
fs_extra = "=1.3.0"
tempfile = "=3.27.0"
crossbeam-channel = "=0.5.17"
async-trait = "=0.1.92"
libloading = "0.8"
