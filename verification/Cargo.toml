[package]
name = "unitctl"
version = "0.1.0"
edition = "2021"
publish = false

[dependencies]
notify = "=6.1.1"
custom_error = "=1.9.2"
log = "=0.4.34"
env_logger = "=0.10.2"
