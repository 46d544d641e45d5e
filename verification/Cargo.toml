[package]
name = "rapidl"
version = "0.1.0"
edition = "2021"
publish = false

[dependencies]
rand = "=0.8.8"
uuid = { version = "=1.29.0", features = ["v4"] }
flate2 = "=1.1.10"
base64 = "=0.22.1"
chrono = { version = "=0.4.45", features = ["serde"] }
serde = { version = "=1.0.229", features = ["derive"] }
serde_json = "=1.0.154"
rmp-serde = "=1.3.1"
tokio = { version = "=1.54.1", features = ["macros", "rt-multi-thread"] }
tracing = "=0.1.44"
tracing-subscriber = "=0.3.23"
dotenvy = "=0.15.7"
diesel = { version = "=2.3.14", default-features = false, features = ["postgres_backend", "chrono", "uuid"] }
diesel-async = { version = "=0.9.2", features = ["postgres", "deadpool"] }
deadpool-redis = "=0.23.1"
aws-config = "=1.12.0"
aws-types = "~1.6"
aws-sdk-s3 = "=1.152.0"
aws-sdk-sqs = "=1.114.0"
aws_lambda_events = { version = "=1.2.1", default-features = false, features = ["sqs"] }
lambda_runtime = "=1.5.0"
