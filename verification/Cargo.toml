[package]
name = "stationboard"
version = "0.1.0"
edition = "2021"
publish = false

[dependencies]
chrono = "0.4"
iso8601 = "*"
serde_json = "1"
reqwest = { version = "*", default-features = false }
tokio = { version = "1", features = ["rt", "macros", "time", "sync"] }
