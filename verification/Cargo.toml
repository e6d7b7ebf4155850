[package]
name = "puprs"
version = "0.1.0"
edition = "2021"
publish = false

[dependencies]
async-trait = "0.1"
async-tungstenite = { version = "0.29", features = ["tokio-runtime"] }
base64 = "0.22"
chromiumoxide = { version = "0.7", default-features = false, features = ["tokio-runtime"] }
chromiumoxide_cdp = "0.7"
chromiumoxide_types = "0.7"
dunce = "1"
fnv = "1"
futures = "0.3"
indexmap = "2"
serde = { version = "1", features = ["derive"] }
serde_json = "1"
thiserror = "2"
tokio = { version = "1", features = ["full"] }
