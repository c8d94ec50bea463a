[package]
name = "archive_extractor"
version = "0.1.0"
edition = "2021"
publish = false

[dependencies]
clap = { version = "=4.6.7", features = ["derive"] }
infer = "=0.22.0"
zip = "=2.6.1"
sevenz-rust = { version = "=0.6.1", features = ["aes256"] }
unrar = "=0.4.4"
