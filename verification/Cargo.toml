[package]
name = "cloudman-rs"
version = "0.1.0"
edition = "2021"
publish = false

[dependencies]
base64 = "*"
vte = "*"
cursive = "*"
rusoto_core = { version = "*", default-features = false, features = ["rustls"] }
rusoto_ec2 = { version = "*", default-features = false, features = ["rustls"] }
tokio = { version = "*", features = ["rt-multi-thread"] }
clap = { version = "*", features = ["derive"] }
dirs = "*"
