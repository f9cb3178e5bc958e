[package]
name = "launchdarkly"
version = "0.1.0"
edition = "2021"
publish = false

[dependencies]
futures = "=0.1.31"
hyper = "=0.11.27"
log = "=0.4.34"
serde = "=1.0.229"
serde_json = "=1.0.154"
serde_urlencoded = "=0.7.1"
tokio-core = "=0.1.18"
