[package]
name = "btmon"
version = "0.1.0"
edition = "2021"
publish = false

[dependencies]
clap = { version = "4", features = ["derive"] }
objc2 = "0.6"
objc2-core-bluetooth = "0.3"
objc2-foundation = "0.3"
objc2-io-bluetooth = "0.3"
serde = { version = "1", features = ["derive"] }
serde_json = "1"
tracing = "0.1"
tracing-subscriber = { version = "0.3", features = ["json"] }
