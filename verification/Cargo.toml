[package]
name = "grok_search"
version = "0.1.0"
edition = "2021"
publish = false

[dependencies]
async-trait = "0.1"
reqwest = { version = "0.12", default-features = false }
serde_json = "1"
tokio = { version = "1", features = ["macros", "rt", "sync", "time"] }
url = "2"
uuid = { version = "1", features = ["v4"] }
