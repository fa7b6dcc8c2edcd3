[package]
name = "tumblr_api"
version = "0.1.0"
edition = "2021"
publish = false

[dependencies]
serde_json = "1"
async-lock = "3"
reqwest = { version = "0.12", default-features = false, features = ["json", "multipart"] }
time = { version = "0.3", features = ["formatting"] }
