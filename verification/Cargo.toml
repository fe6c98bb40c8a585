[package]
name = "stellars3"
version = "0.1.0"
edition = "2021"
publish = false

[dependencies]
mime_guess = "2"
anyhow = "1"
chrono = { version = "0.4", features = ["serde"] }
serde = { version = "1", features = ["derive"] }
tokio = { version = "1", features = ["rt-multi-thread", "macros", "sync", "fs"] }
aws-config = "1"
aws-sdk-s3 = "1"
