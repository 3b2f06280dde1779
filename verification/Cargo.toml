[package]
name = "submodule_hook"
version = "0.1.0"
edition = "2021"
publish = false

[dependencies]
anyhow = "1"
clap = { version = "4", features = ["derive"] }
console = "*"
dialoguer = "*"
env_logger = "*"
git2 = { version = "*", default-features = false }
log = "0.4"

[dev-dependencies]
tempfile = "3"
