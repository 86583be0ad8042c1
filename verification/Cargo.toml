[package]
name = "patreon"
version = "0.1.0"
edition = "2021"
publish = false

[dependencies]
chrono = { version = "0.4", features = ["serde"] }
reqwest = { version = "0.12", default-features = false }
serde = { version = "1", features = ["derive"] }
serde_derive = "1"
serde_json = "1"
tracing = "0.1"
url = "2"
