[package]
name = "ncino_sandbox"
version = "0.1.0"
edition = "2021"
publish = false

[dependencies]
url = "2"
anyhow = "1"
async-channel = "1.9"
cassette = "0.2"
futures = "0.3"
tokio = { version = "1", features = ["rt", "sync", "time", "macros"] }
