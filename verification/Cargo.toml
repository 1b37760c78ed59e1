[package]
name = "param_relay"
version = "0.1.0"
edition = "2021"
publish = false

[dependencies]
aws-config = { version = "*", default-features = false }
aws-sdk-ssm = { version = "*", default-features = false }
lambda_http = "*"
tokio = { version = "*", features = ["macros", "rt-multi-thread"] }
tracing = "*"
tracing-subscriber = "*"
