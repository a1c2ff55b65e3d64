[package]
name = "fast_release"
version = "0.1.0"
edition = "2021"
publish = false

[dependencies]
url = "=2.5.8"
regex = "=1.13.1"
serde_json = "=1.0.154"
serde = { version = "=1.0.229", features = ["derive"] }
serde_yaml = "=0.9.34"
clap = "=4.6.7"
tracing = "=0.1.44"
tracing-subscriber = "0.3"
