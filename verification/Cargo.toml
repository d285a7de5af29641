[package]
name = "nekoshare_transport"
version = "0.1.0"
edition = "2021"
publish = false

[dependencies]
sha2 = "=0.10.9"
hex = "=0.4.3"
uuid = { version = "=1.29.0", features = ["v4"] }
dashmap = "=6.2.1"
tokio = { version = "=1.54.1", features = ["rt-multi-thread", "net", "io-util", "sync", "time", "fs", "macros"] }
rustls = { version = "=0.23.46", default-features = false, features = ["ring", "std", "logging"] }
tokio-rustls = { version = "=0.26.6", default-features = false, features = ["ring", "logging"] }
rustls-native-certs = "=0.8.5"
rcgen = "=0.13.2"
serde = { version = "=1.0.229", features = ["derive"] }
serde_json = "=1.0.154"
directories = "=5.0.1"
socket2 = "=0.5.10"
log = "=0.4.34"
anyhow = "=1.0.104"
thiserror = "=1.0.69"
chrono = "0.4"
sysinfo = "*"
machine-uid = "*"
starship-battery = "*"
