[package]
name = "cdupage"
version = "0.1.0"
edition = "2021"
publish = false

[dependencies]
chrono = { version = "0.4", features = ["serde"] }
serde = { version = "1", features = ["derive"] }
serde_json = "1"
serde_urlencoded = "0.7"
serde-aux = "4"
common_macros = "0.1"
reqwest = { version = "0.12", default-features = false, features = ["blocking", "cookies", "json", "multipart"] }
