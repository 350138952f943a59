[package]
name = "serverless_cache"
version = "0.1.0"
edition = "2021"
publish = false

[dependencies]
chrono = { version = "0.4", default-features = false, features = ["clock", "std"] }
serde = { version = "1", features = ["derive"] }
serde_json = "1"
http = "1"
lambda_http = "*"
lambda_runtime = "*"
aws_lambda_events = { version = "*", default-features = false, features = ["sqs"] }
aws-config = { version = "1", features = ["behavior-version-latest"] }
aws-sdk-dynamodb = "1"
tokio = { version = "1", features = ["macros", "rt-multi-thread", "time"] }
reqwest = { version = "0.12", default-features = false, features = ["json", "rustls-tls"] }
rand = "0.8"
futures = "0.3"
tracing-subscriber = "0.3"
async-trait = "0.1"
