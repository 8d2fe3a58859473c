[package]
name = "chameleon"
version = "0.1.0"
edition = "2021"
publish = false

[dependencies]
dryoc = "*"
hex = "0.4"
serde_json = { version = "1", features = ["preserve_order"] }
url = "2"
serde = { version = "1", features = ["derive"] }
lambda_http = "*"
aws-config = "1"
aws-sdk-ssm = "1"
reqwest = "*"
tokio = { version = "1", features = ["macros", "rt-multi-thread"] }
tracing = "0.1"
tracing-subscriber = "0.3"
dotenv = "0.15"
anyhow = "1"
