[package]
name = "mnemnk_obsidian_notes"
version = "0.1.0"
edition = "2021"
publish = false

[dependencies]
serde_json = "*"
urlencoding = "*"
clap = { version = "*", features = ["derive"] }
dotenv = "*"
env_logger = "*"
log = "*"
reqwest = { version = "*", default-features = false }
tokio = { version = "*", features = ["io-std", "io-util", "macros", "rt-multi-thread", "signal"] }
