[package]
name = "backend"
version = "0.1.0"
edition = "2021"
publish = false

[dependencies]
serde = { version = "=1.0.229", features = ["derive"] }
serde_json = "=1.0.154"
chrono = { version = "=0.4.45", default-features = false, features = ["serde", "clock", "std"] }
async-trait = "=0.1.92"
log = "=0.4.35"
reqwest = { version = "=0.12.28", default-features = false, features = ["json", "rustls-tls"] }
tokio = { version = "=1.54.1", features = ["sync", "macros", "rt"] }
jsonwebtoken = "9"
futures-util = "0.3"
actix-web = { version = "4", default-features = false, features = ["macros", "cookies"] }
aws-config = { version = "1", features = ["behavior-version-latest"] }
aws-sdk-cognitoidentityprovider = "1"
aws-sdk-secretsmanager = "1"
aws_secretsmanager_caching = "1"
