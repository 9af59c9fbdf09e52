[package]
name = "mmc"
version = "0.1.0"
edition = "2021"
publish = false

[dependencies]
blake3 = "=1.8.7"
x25519-dalek = { version = "=2.0.1", features = ["static_secrets"] }
ed25519-dalek = "=2.2.0"
rand = "=0.8.8"
zeroize = "=1.9.1"
base64 = "=0.22.1"
chrono = "=0.4.45"
serde = { version = "=1.0.229", features = ["derive"] }
serde_json = "=1.0.154"
uuid = { version = "=1.29.0", features = ["v4"] }
tokio = { version = "=1.54.1", features = ["full"] }
async-trait = "=0.1.92"
thiserror = "=1.0.69"
clap = { version = "=4.6.7", features = ["derive"] }
hostname = "=0.4.2"
prost = "=0.12.6"
bytes = "=1.12.1"
anyhow = "=1.0.104"
sha2 = "=0.10.9"
mdns-sd = "=0.21.7"
tiny_http = "=0.12.0"
arboard = { version = "=3.7.0", default-features = false }
tracing = "=0.1.44"
tracing-subscriber = { version = "=0.3.23", features = ["env-filter"] }

[dev-dependencies]
tempfile = "=3.27.0"
