[package]
name = "ec_fan"
version = "0.1.0"
edition = "2021"
publish = false

[dependencies]
clap = { version = "=4.6.7", features = ["derive"] }
clap-verbosity-flag = "=3.0.4"
env_logger = "=0.11.11"
libc = "=0.2.191"
log = "=0.4.34"
x86_64 = { version = "=0.15.5", default-features = false, features = ["instructions"] }
