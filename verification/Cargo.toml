[package]
name = "clipboard_hub"
version = "0.1.0"
edition = "2021"
publish = false

[dependencies]
arboard = "3"
base64 = "0.21"
image = { version = "0.24", default-features = false, features = ["png"] }
serde_json = "1"
tokio = { version = "1", features = ["full"] }
