[package]
name = "jumake"
version = "0.1.0"
edition = "2021"
publish = false

[dependencies]
clap = { version = "*", features = ["derive"] }
dialoguer = "*"
dirs = "*"
env_logger = "*"
git2 = "*"
log = "*"
num_cpus = "*"
serde = { version = "*", features = ["derive"] }
thiserror = "*"
toml = "*"
which = "*"
