[package]
name = "cameraftp"
version = "0.1.0"
edition = "2021"
publish = false

[dependencies]
local-ip-address = "=0.6.13"
base64 = "=0.22.1"
argon2 = "=0.5.3"
password-hash = { version = "=0.5.0", features = ["getrandom"] }
flate2 = "=1.1.10"
serde = { version = "=1.0.229", features = ["derive"] }
serde_json = "=1.0.154"
tokio = { version = "=1.54.1", features = ["rt-multi-thread", "macros", "net", "sync", "time", "fs"] }
tracing = "=0.1.44"
chrono = "=0.4.45"
nom-exif = "=2.8.1"
thiserror = "=1.0.69"
zeroize = "=1.9.1"
image = { version = "=0.25.10", default-features = false, features = ["jpeg", "png"] }
notify = "=8.2.1"
dirs = "=7.0.0"
dashmap = "6"
