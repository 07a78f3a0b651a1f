[package]
name = "session_sharing_protocol"
version = "0.1.0"
edition = "2021"
publish = false

[dependencies]
byte-unit = "5"
serde = { version = "1", features = ["derive"] }
serde_json = "1"
uuid = { version = "1", features = ["v4", "serde"] }
