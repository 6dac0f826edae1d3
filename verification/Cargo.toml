[package]
name = "feed_spider"
version = "0.1.0"
edition = "2021"
publish = false

[dependencies]
serde_json = "*"
rand = "*"
reqwest = { version = "*", default-features = false, features = ["blocking"] }
