[package]
name = "osc_cost"
version = "0.1.0"
edition = "2021"
publish = false

[dependencies]
aws-config = { version = "=0.54.1", default-features = false }
aws-credential-types = { version = "=0.54.1", features = ["hardcoded-credentials"] }
aws-sdk-s3 = { version = "=0.24.0", default-features = false }
chrono = "=0.4.45"
http = "=0.2.12"
log = "=0.4.35"
outscale_api = "=1.8.0"
rand = "=0.8.8"
secrecy = "=0.8.0"
