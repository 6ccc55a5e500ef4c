[package]
name = "xrp_viewer"
version = "0.1.0"
edition = "2021"
publish = false

[dependencies]
anyhow = "*"
base58 = "*"
clap = { version = "*", features = ["derive"] }
crc32fast = "*"
dotenv = "*"
env_logger = "*"
log = "*"
reqwest = { version = "*", default-features = false, features = ["json"] }
serde = { version = "*", features = ["derive"] }
serde_json = "*"
tokio = { version = "*", features = ["rt-multi-thread", "macros"] }
