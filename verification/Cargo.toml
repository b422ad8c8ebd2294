[package]
name = "lambda_http"
version = "0.1.0"
edition = "2021"
publish = false

[dependencies]
aws_lambda_events = "=0.4.0"
base64 = "=0.12.3"
http = "=0.2.12"
lamedh_runtime = "=0.3.0"
serde = { version = "=1.0.229", features = ["derive"] }
serde_json = "=1.0.154"
