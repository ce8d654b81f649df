[package]
name = "aspen"
version = "0.1.0"
edition = "2021"
publish = false

[dependencies]
bstr = "=1.13.1"
env_logger = "=0.11.11"
log = "=0.4.34"
minifb = "*"
yansi = "=1.0.1"
