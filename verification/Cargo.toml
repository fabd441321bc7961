[package]
name = "bully"
version = "0.1.0"
edition = "2021"
publish = false

[dependencies]
bincode = "1.3"
rand = "0.7"
socket2 = "0.3"
log = "0.4"
env_logger = "0.7"
