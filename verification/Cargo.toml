[package]
name = "nitrogen"
version = "0.1.0"
edition = "2021"
publish = false

[dependencies]
aws-config = "*"
aws-sdk-cloudformation = "*"
aws-sdk-kms = "*"
clap = { version = "*", features = ["derive"] }
home = "*"
serde = { version = "*", features = ["derive"] }
serde_json = "*"
tokio = { version = "*", features = ["rt-multi-thread", "macros", "time", "process"] }
uuid = { version = "*", features = ["v4"] }
