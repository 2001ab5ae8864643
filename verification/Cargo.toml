[package]
name = "shared_lib"
version = "0.1.0"
edition = "2021"
publish = false

[dependencies]
Inflector = "=0.11.4"
validator = "=0.16.1"
bcrypt = "=0.15.1"
chrono = { version = "=0.4.45", features = ["serde"] }
cookie = { version = "=0.18.2", features = ["private"] }
http = "=0.2.12"
serde = { version = "=1.0.229", features = ["derive"] }
serde_json = "=1.0.154"
mongodb = "=2.8.2"
futures-util = "=0.3.34"
tokio = { version = "=1.54.1", features = ["macros"] }
lambda_runtime = "=0.8.3"
aws_lambda_events = { version = "=0.12.1", default-features = false, features = ["apigw"] }
reqwest = { version = "=0.11.27", default-features = false, features = ["json", "rustls-tls"] }
dotenvy = "=0.15.7"
