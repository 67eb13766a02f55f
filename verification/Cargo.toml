[package]
name = "cfn_deploy"
version = "0.1.0"
edition = "2021"
publish = false

[dependencies]
async-stream = "=0.3.6"
async_zip = { version = "=0.0.19", features = ["tokio", "deflate"] }
aws-config = "=1.12.0"
aws-sdk-s3 = "=1.152.0"
aws_sso_flow = { version = "=0.5.0", features = ["aws-sdk"] }
aws-types = "=1.6.0"
base64 = "=0.21.7"
chrono = "=0.4.45"
clap = { version = "=4.6.7", features = ["derive", "env"] }
clap_complete = "=4.6.11"
colored = "=2.2.0"
futures-util = "=0.3.34"
http = "=0.2.12"
hyper = { version = "=0.14.32", features = ["stream"] }
md5 = "=0.7.0"
pin-utils = "=0.1.1"
rusoto_cloudformation = { version = "=0.48.0", default-features = false, features = ["rustls"] }
rusoto_core = { version = "=0.48.0", default-features = false, features = ["rustls"] }
serde_json = "=1.0.154"
serde_yaml = "=0.9.34"
tempfile = "=3.27.0"
tokio = { version = "=1.54.1", features = ["full"] }
tokio-stream = "=0.1.19"
tokio-util = { version = "=0.7.20", features = ["codec", "compat"] }
uuid = { version = "=1.29.0", features = ["v4"] }
