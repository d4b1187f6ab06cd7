[package]
name = "steam_openid"
version = "0.1.0"
edition = "2021"
publish = false

[dependencies]
regex = "1"
reqwest = "0.12"
serde_urlencoded = "0.7"
url = "2"
