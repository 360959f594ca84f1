[package]
name = "gatekeeper"
version = "0.1.0"
edition = "2021"
publish = false

[dependencies]
pingora = { version = "*", features = ["lb", "proxy", "openssl"] }
clap = { version = "4", features = ["derive"] }
env_logger = "*"
async-trait = "*"
