[package]
name = "compile_engine"
version = "0.1.0"
edition = "2021"
publish = false

[dependencies]
solang-parser = "*"
rocket = "0.5"
tracing = "*"
tracing-subscriber = "*"
