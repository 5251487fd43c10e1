[package]
name = "sequencer_client"
version = "0.1.0"
edition = "2021"
publish = false

[dependencies]
base64 = "=0.21.7"
rlp = "=0.5.2"
ethereum-types = "=0.14.1"
url = "=2.5.8"
serde = { version = "=1.0.229", features = ["derive"] }
serde_json = "=1.0.154"
thiserror = "=1.0.69"
tokio = { version = "=1.54.1", features = ["rt-multi-thread", "macros", "net", "time"] }
tokio-tungstenite = { version = "=0.20.1", features = ["rustls-tls-webpki-roots"] }
tungstenite = "=0.20.1"
crossbeam-channel = "=0.5.17"
futures-util = "=0.3.34"
log = "=0.4.34"
env_logger = "=0.10.2"
