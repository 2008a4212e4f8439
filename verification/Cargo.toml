[package]
name = "twcli"
version = "0.1.0"
edition = "2021"
publish = false

[dependencies]
serde_json = "*"
clap = "*"
config = "*"
oauth-client = "*"
