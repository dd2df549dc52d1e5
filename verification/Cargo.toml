[package]
name = "sequencer_feed"
version = "0.1.0"
edition = "2021"
publish = false

[dependencies]
alloy-primitives = "*"
base64 = "*"
futures = "*"
log = "*"
serde = { version = "*", features = ["derive"] }
serde_json = "*"
tokio = { version = "*", features = ["rt-multi-thread", "net", "sync", "time", "macros"] }
tokio-tungstenite = "*"
tungstenite = "*"
url = "*"

[dev-dependencies]
alloy-rlp = "*"
