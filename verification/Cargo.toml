[package]
name = "jdw_suite"
version = "0.1.0"
edition = "2021"
publish = false

[dependencies]
rosc = "*"
serde = { version = "1", features = ["derive"] }
toml = "*"
clap = { version = "4", features = ["derive"] }
log = "0.4"
simple_logger = "*"
