[package]
name = "post_discord_to_event"
version = "0.1.0"
edition = "2021"
publish = false

[dependencies]
aws-config = { version = "=1.13.0", features = ["behavior-version-latest"] }
aws-sdk-sfn = "=1.123.0"
aws_lambda_events = { version = "=1.2.1", default-features = false, features = ["apigw"] }
ed25519-dalek = "=2.2.0"
lambda_runtime = "=1.5.0"
serde_json = "=1.0.154"
tokio = { version = "=1.54.1", features = ["macros"] }
tracing = "=0.1.44"
tracing-subscriber = { version = "=0.3.23", features = ["json"] }

[dev-dependencies]
serenity = { version = "=0.12.5", default-features = false, features = ["builder", "interactions_endpoint"] }
