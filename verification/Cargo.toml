[package]
name = "keylog"
version = "0.1.0"
edition = "2021"
publish = false

[dependencies]
chrono = "0.4"
libc = "0.2"
getopts = "0.2"
env_logger = "0.11"
log = "0.4"
