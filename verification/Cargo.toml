[package]
name = "spider_util"
version = "0.1.0"
edition = "2021"
publish = false

[dependencies]
bincode = "1"
bytes = { version = "1", features = ["serde"] }
csv = "1"
dashmap = "6"
futures-util = "0.3"
http = "1"
linkify = "0.10"
once_cell = "1"
parking_lot = "0.12"
psl = "2"
reqwest = { version = "0.12", default-features = false }
rusqlite = "*"
scraper = "*"
seahash = "4"
serde = { version = "1", features = ["derive"] }
serde_json = "1"
thiserror = "1"
twox-hash = "2"
url = "2"
