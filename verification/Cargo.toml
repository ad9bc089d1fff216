[package]
name = "trail_license"
version = "0.1.0"
edition = "2021"
publish = false

[dependencies]
mytiki-core-trail-storage = "=0.1.3"
serde_json = "=1.0.151"
num-bigint = "0.4"
serde = { version = "=1.0.229", features = ["derive"] }
chrono = "=0.4.45"
lambda_http = "=1.3.1"
tokio = { version = "=1.53.2", features = ["macros", "rt-multi-thread"] }
tracing = "=0.1.44"
tracing-subscriber = "=0.3.23"
aws-config = "=1.12.0"
aws-sdk-sqs = "=1.114.0"
