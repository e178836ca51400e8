[package]
name = "rsocket_ffi"
version = "0.1.0"
edition = "2021"
publish = false

[dependencies]
bytes = "1"
env_logger = "0.10"
jni = "0.21"
libc = "0.2"
