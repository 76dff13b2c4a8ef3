[package]
name = "toml_const_cli"
version = "0.1.0"
edition = "2021"
publish = false

[dependencies]
clap = { version = "=4.6.7", features = ["derive"] }
log = "=0.4.34"
pretty_env_logger = "=0.5.0"
toml = "=1.1.6"
