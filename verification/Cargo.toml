[package]
name = "hydro_sense"
version = "0.1.0"
edition = "2021"
publish = false

[dependencies]
embedded-hal = "1"
linux-embedded-hal = "*"
anyhow = "1"
log = "0.4"
env_logger = "*"
