[package]
name = "node_benchmark"
version = "0.1.0"
edition = "2021"
publish = false

[dependencies]
fuels = "=0.66.10"
tokio = { version = "=1.54.1", features = ["macros", "rt-multi-thread"] }
dotenv = "=0.15.0"
env_logger = { version = "=0.11.11", default-features = false }
log = "=0.4.34"
thiserror = "=1.0.69"
