[package]
name = "slack_api"
version = "0.1.0"
edition = "2021"
publish = false

[dependencies]
Inflector = "0.11"
serde_json = "1"
hyper = "0.10"
