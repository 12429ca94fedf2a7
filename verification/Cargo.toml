[package]
name = "systemd_language_server"
version = "0.1.0"
edition = "2021"
publish = false

[dependencies]
ini = "1"
tower-lsp = "0.20"
tokio = { version = "1", features = ["io-std", "macros", "rt-multi-thread"] }
env_logger = "0.11"
log = "0.4"
