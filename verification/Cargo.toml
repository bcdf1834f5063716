[package]
name = "path2d"
version = "0.1.0"
edition = "2021"
publish = false

[dependencies]
euclid = "0.22"
serde = { version = "1", features = ["derive"] }
serde_json = "1"
url = "2"
ipc-channel = "*"
