[package]
name = "passfs"
version = "0.1.0"
edition = "2021"
publish = false

[dependencies]
fuser = "*"
openat = "*"
libc = "*"
log = "*"
error-chain = "*"
simple_logger = "*"
