[package]
name = "tunnel_manager"
version = "0.1.0"
edition = "2021"
publish = false

[dependencies]
aws-config = "*"
aws-sdk-iotsecuretunneling = "*"
tokio = { version = "1", features = ["macros", "process", "rt-multi-thread"] }
