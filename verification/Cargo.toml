[package]
name = "strava"
version = "0.1.0"
edition = "2021"
publish = false

[dependencies]
reqwest = { version = "=0.13.5", default-features = false, features = ["form", "multipart"] }
serde = { version = "=1.0.229", features = ["derive"] }
serde_json = "*"
serde_repr = "=0.1.21"
