[package]
name = "gateway_session"
version = "0.1.0"
edition = "2021"
publish = false

[dependencies]
log = "=0.3.9"
serde_json = "=0.8.6"
time = "=0.1.45"
url = "=1.7.2"
websocket = { version = "0.27", default-features = false, features = ["sync"] }
