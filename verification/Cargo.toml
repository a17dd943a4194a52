[package]
name = "upd8r"
version = "0.1.0"
edition = "2021"
publish = false

[dependencies]
crossbeam-channel = "*"
chrono = "*"
anyhow = "*"
attohttpc = { version = "*", default-features = false, features = ["json"] }
rss = "*"
scraper = "*"
url = "*"
serde = { version = "*", features = ["derive"] }
serde_json = "*"
