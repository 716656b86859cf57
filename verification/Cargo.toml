[package]
name = "tera_aws"
version = "0.1.0"
edition = "2021"
publish = false

[dependencies]
aws-config = "0.8"
aws-sdk-ec2 = "0.8"
aws-sdk-secretsmanager = "0.8"
aws-types = "0.8"
color-eyre = "0.6"
eyre = "0.6"
serde = "1"
serde_json = "1"
structopt = "0.3"
tempfile = "3"
tera = "1"
thiserror = "1"
tokio = { version = "1", features = ["rt", "net", "time"] }
walkdir = "2"
