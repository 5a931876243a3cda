[package]
name = "jukectl"
version = "0.1.0"
edition = "2021"
publish = false

[dependencies]
clap = "=2.34.0"
colored = "=2.2.0"
dotenv = "=0.15.0"
env_logger = "=0.10.2"
log = "=0.4.34"
reqwest = "=0.11.27"
serde_json = { version = "=1.0.154", features = ["raw_value"] }
tokio = { version = "=1.54.1", features = ["macros", "rt-multi-thread"] }
