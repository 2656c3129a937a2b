[package]
name = "deskcore"
version = "0.1.0"
edition = "2021"
publish = false

[dependencies]
sha2 = "0.10"
uuid = { version = "1", features = ["v4"] }
tokio = { version = "1", features = ["net", "time", "rt", "sync"] }
once_cell = "1"
