[package]
name = "git_author"
version = "0.1.0"
edition = "2021"
publish = false

[dependencies]
anyhow = "1"
clap = { version = "3", features = ["derive"] }
email-address-parser = "*"
thiserror = "1"
