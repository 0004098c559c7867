[package]
name = "launcher_config"
version = "0.1.0"
edition = "2021"
publish = false

[dependencies]
lazy_static = "1.4"
serde_json = "1.0"
