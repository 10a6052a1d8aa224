[package]
name = "redsigil"
version = "0.1.0"
edition = "2021"
publish = false

[dependencies]
yaml-rust2 = "*"
clap = { version = "*", features = ["derive"] }
log = "*"
env_logger = "*"
reqwest = { version = "*", default-features = false, features = ["blocking", "rustls-tls"] }
