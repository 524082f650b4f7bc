[package]
name = "rusoto"
version = "0.22.0"
edition = "2021"
publish = false

[dependencies]
chrono = "0.4"
serde_json = "1"
hyper = "0.10"
rayon = "1"
env_logger = "0.11"
