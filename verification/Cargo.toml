[package]
name = "syncgit"
version = "0.1.8"
edition = "2021"
publish = false

[dependencies]
crossterm = "*"
reqwest = { version = "*", features = ["blocking", "json"] }
serde_json = "1"
