[package]
name = "beelay"
version = "0.1.0"
edition = "2021"
publish = false

[dependencies]
serde_json = "=1.0.151"
argh = "=0.1.19"

[dependencies.reqwest]
version = "=0.13.5"
default-features = false
features = ["blocking", "query"]
