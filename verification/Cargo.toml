[package]
name = "hfuzz"
version = "0.1.0"
edition = "2021"
publish = false

[dependencies]
log = "*"
rustc_version = "*"
structopt = "*"
thiserror = "*"
