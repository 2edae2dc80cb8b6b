[package]
name = "verder_helpen"
version = "0.1.0"
edition = "2021"
publish = false

[dependencies]
base64 = "0.13"
url = "2"
serde = { version = "1", features = ["derive"] }
serde_json = "1"
serde_yaml = "0.9"
reqwest = { version = "0.11", default-features = false, features = ["json"] }
rocket = { version = "0.5", features = ["json"] }
tokio = { version = "1", features = ["rt-multi-thread", "macros"] }
josekit = "0.8"
askama = "0.12"
