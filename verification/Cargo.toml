[package]
name = "raf"
version = "0.1.0"
edition = "2021"
publish = false

[dependencies]
anyhow = "1"
chrono = "0.4"
clap = { version = "3.2", features = ["derive"] }
dialoguer = "0.10"
env_logger = "0.9"
fs_extra = "1"
glob = "0.3"
rustyline = "9.1"
serde = { version = "1", features = ["derive"] }
toml = "0.5"
