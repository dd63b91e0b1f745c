[package]
name = "oms_check"
version = "0.1.0"
edition = "2021"
publish = false

[dependencies]
config = { version = "=0.14.1", default-features = false, features = ["yaml", "preserve_order"] }
env_logger = { version = "=0.11.11", default-features = false }
reqwest = "=0.11.27"
tokio = { version = "=1.54.1", features = ["rt-multi-thread", "macros"] }
