[package]
name = "cargo_get"
version = "0.1.0"
edition = "2021"
publish = false

[dependencies]
semver = "1"
cargo_toml = "0.19"
clap = "2"
