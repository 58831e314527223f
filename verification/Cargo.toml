[package]
name = "lemmy_federation"
version = "0.1.0"
edition = "2021"
publish = false

[dependencies]
regex = "1"
url = "2"
itertools = "0.10"
base64 = "0.13"
openssl = "0.10"
serde = { version = "1", features = ["derive"] }
serde_json = "1"
actix-web = "4"
reqwest = { version = "0.11", features = ["json"] }
tokio = { version = "1", features = ["full"] }
chrono = "0.4"
