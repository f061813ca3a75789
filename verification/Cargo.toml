[package]
name = "async_repeater"
version = "0.1.0"
edition = "2021"
publish = false

[dependencies]
futures-core = "0.3"
tokio = { version = "1", features = ["macros", "rt", "sync", "time"] }
tokio-stream = "0.1"
tokio-util = { version = "0.7", features = ["time"] }

[dev-dependencies]
tokio = { version = "1", features = ["rt", "test-util", "time"] }
