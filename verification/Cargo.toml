[package]
name = "wail"
version = "0.1.0"
edition = "2021"
publish = false

[dependencies]
anyhow = "=1.0.104"
clap = { version = "=4.6.7", features = ["derive"] }
serde = { version = "=1.0.229", features = ["derive"] }
serde_json = "=1.0.154"
serde_yaml = "=0.9.34"
thiserror = "=1.0.69"
wadm-types = "=0.8.3"
wit-component = "=0.220.1"
wit-parser = "=0.220.1"

[dev-dependencies]
wit-component = { version = "=0.220.1", features = ["dummy-module"] }
