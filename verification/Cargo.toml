[package]
name = "boot_image"
version = "0.1.0"
edition = "2021"
publish = false

[dependencies]
cargo_metadata = "*"
cargo-toml2 = "*"
llvm-tools = "*"
structopt = "*"
