[package]
name = "matchbox_socket"
version = "0.6.0"
edition = "2021"
publish = false

[dependencies]
async-compat = "0.2"
async-trait = "0.1"
async-tungstenite = { version = "0.21", default-features = false, features = ["async-std-runtime"] }
bytes = "1"
futures = "0.3"
futures-channel = "0.3"
futures-util = "0.3"
log = "0.4"
serde_json = "1"
webrtc = "0.7"
