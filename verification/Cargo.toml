[package]
name = "fcastsender"
version = "0.1.0"
edition = "2021"
publish = false

[dependencies]
uuid = { version = "=1.29.0", features = ["v4"] }
serde = { version = "=1.0.229", features = ["derive"] }
serde_json = "=1.0.154"
anyhow = "=1.0.104"
thiserror = "=2.0.21"
parking_lot = "=0.12.5"
chrono = "=0.4.45"
tokio = { version = "=1.54.1", features = ["rt-multi-thread", "macros", "time", "net", "sync"] }
async-trait = "=0.1.92"
futures-util = "=0.3.34"
tokio-tungstenite = "=0.30.0"
once_cell = "=1.21.4"
log = "=0.4.35"
tracing = "=0.1.44"
tracing-subscriber = "=0.3.23"
crossbeam-channel = "=0.5.17"
lazy_static = "=1.5.1"
android_logger = "=0.15.1"
jni = "=0.21.1"
