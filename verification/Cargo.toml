[package]
name = "cargo_fuzz"
version = "0.1.0"
edition = "2021"
publish = false

[dependencies]
toml = "0.4"
clap = "2"
term = "0.4"
tokio-core = "0.1"
tokio-process = "0.1"
tokio-io = "0.1"
futures = "0.1"
error-chain = "0.10"
