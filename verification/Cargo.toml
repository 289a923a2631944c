[package]
name = "doq_connect"
version = "0.1.0"
edition = "2021"
publish = false

[dependencies]
quinn = { version = "0.11", default-features = false, features = ["runtime-tokio", "rustls"] }
rustls = { version = "0.23", default-features = false, features = ["ring", "std"] }
