[package]
name = "burnwatch"
version = "0.1.0"
edition = "2021"
publish = false

[dependencies]
anyhow = "*"
env_logger = "*"
reqwest = { version = "*", default-features = false, features = ["json"] }
serde_json = "*"
tokio = { version = "*", default-features = false, features = ["macros", "rt-multi-thread", "time"] }
