[package]
name = "edugame"
version = "0.1.0"
edition = "2021"
publish = false

[dependencies]
rand = "0.8"
reqwest = { version = "0.12", default-features = false, features = ["cookies", "json"] }
rocket = { version = "0.5", features = ["json"] }
