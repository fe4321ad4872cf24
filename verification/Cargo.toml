[package]
name = "amdgpu_fan"
version = "0.1.0"
edition = "2021"
publish = false

[dependencies]
env_logger = "0.7"
log = "0.4"
serde = "1"
serde_derive = "1"
signal-hook = "0.1"
toml = "0.5"
