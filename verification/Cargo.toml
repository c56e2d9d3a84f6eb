[package]
name = "gemini"
version = "0.1.0"
edition = "2021"
publish = false

[dependencies]
base64 = "0.22"
async-trait = "*"
ezsockets = "*"
reqwest = { version = "*", default-features = false }
tokio = { version = "1", features = ["full"] }
tokio-stream = "*"
