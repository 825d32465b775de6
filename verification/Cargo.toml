[package]
name = "creditcoin_admin"
version = "0.1.0"
edition = "2021"
publish = false

[dependencies]
hex = "*"
subxt = "*"
subxt-signer = { version = "*", default-features = false, features = ["sr25519", "subxt", "std"] }
tokio = { version = "*", features = ["rt-multi-thread"] }
clap = { version = "*", default-features = false, features = ["std"] }
