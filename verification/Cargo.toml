[package]
name = "dark_std"
version = "0.1.0"
edition = "2021"
publish = false

[dependencies]
flume = "*"
serde = { version = "*", features = ["derive"] }

[dev-dependencies]
serde_json = "*"
tokio = { version = "*", features = ["rt-multi-thread", "time"] }
