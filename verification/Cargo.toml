[package]
name = "fjall_cli"
version = "0.1.0"
edition = "2021"
publish = false

[dependencies]
clap = { version = "4", features = ["derive", "env"] }
fjall = "3"
hex = "0.4"
thiserror = "2"

[dev-dependencies]
tempdir = "0.3"
