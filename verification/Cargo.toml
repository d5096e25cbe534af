[package]
name = "cargo_template"
version = "0.1.0"
edition = "2021"
publish = false

[dependencies]
toml = { version = "0.2", default-features = false }
serde = "1"
serde_derive = "1"
serde_json = "1"
git2 = { version = "*", default-features = false }
clap = "2"
log = "0.4"
env_logger = "*"
error-chain = "0.12"
