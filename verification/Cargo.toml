[package]
name = "waepic"
version = "0.1.0"
edition = "2021"
publish = false

[dependencies]
wacore = { version = "=0.7.0", default-features = false }
wacore-binary = { version = "=0.7.0", default-features = false }
waproto = "=0.7.0"
buffa = "=0.9.2"
bytes = "=1.12.1"
rand = "=0.10.3"
chrono = "=0.4.45"
anyhow = "=1.0.104"
thiserror = "=2.0.21"
tracing = "=0.1.44"
async-channel = "=2.5.0"
async-lock = "=3.5.0"
async-broadcast = "=0.7.2"
async-trait = "=0.1.92"
async-global-executor = "=3.1.0"
async-fs = "=2.2.0"
async-net = "=2.0.0"
async-tungstenite = "=0.35.0"
futures-channel = "=0.3.34"
futures-io = "=0.3.34"
futures-timer = "=3.0.4"
futures-util = "=0.3.34"
prost = "=0.14.4"
serde_json = "=1.0.154"
rusqlite = { version = "*", features = ["bundled"] }
