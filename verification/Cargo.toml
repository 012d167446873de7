[package]
name = "pullpiri"
version = "0.1.0"
edition = "2021"
publish = false

[dependencies]
dust_dds = "*"
tracing = "0.1"
tracing-subscriber = "0.3"
