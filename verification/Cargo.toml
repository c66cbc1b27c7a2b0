[package]
name = "cargo-hf2"
version = "0.1.0"
edition = "2021"
publish = false

[dependencies]
cargo_metadata = "*"
colored = "*"
hf2 = { version = "*", features = ["utils"] }
hidapi = "*"
log = "*"
pretty_env_logger = "*"
structopt = "*"
