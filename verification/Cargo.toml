[package]
name = "xtask"
version = "0.1.0"
edition = "2021"
publish = false

[dependencies]
color-eyre = "0.6"
tempdir = "0.3"
tracing = "0.1"
xshell = "0.2"
