[package]
name = "stratum"
version = "0.1.0"
edition = "2021"
publish = false

[dependencies]
serde_json = "=1.0.154"
futures-util = "=0.3.34"
tokio = { version = "=1.54.1", features = ["macros", "rt", "sync", "time"] }
tokio-util = "=0.7.20"
uuid = { version = "1", features = ["v4", "v7"] }
