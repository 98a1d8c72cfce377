[package]
name = "auth_proxy"
version = "0.1.0"
edition = "2021"
publish = false

[dependencies]
actix-web = "3"
bson = "1"
chrono = { version = "0.4", features = ["serde"] }
futures = "0.3"
ipfs-api = "*"
mongodb = "1"
serde = { version = "1", features = ["derive"] }
serde_json = "1"
thiserror = "1"
url = "2"
uuid = { version = "0.8", features = ["serde", "v4"] }
