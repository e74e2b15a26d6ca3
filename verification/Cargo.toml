[package]
name = "nova_verifier"
version = "0.1.0"
edition = "2021"
publish = false

[dependencies]
serde = { version = "1", features = ["derive"] }
toml = "0.5"
codemap = "*"
codemap-diagnostic = "*"
clap = { version = "4", features = ["derive"] }
log = "0.4"
pretty_env_logger = "*"
