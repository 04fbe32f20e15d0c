[package]
name = "ngrok_api"
version = "0.1.0"
edition = "2021"
publish = false

[dependencies]
log = "=0.4.34"
serde_json = "=1.0.154"
unzip = "=0.1.0"
ureq = { version = "=2.12.1", features = ["json"] }
url = "=2.5.8"
