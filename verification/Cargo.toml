[package]
name = "procpipe"
version = "0.1.0"
edition = "2021"
publish = false

[dependencies]
duct = "=1.1.2"
os_pipe = "=1.2.3"
rhai = "=1.26.1"
