[package]
name = "sifis_generate"
version = "0.1.0"
edition = "2021"
publish = false

[dependencies]
license = "*"
minijinja = "*"
textwrap = "*"
clap = { version = "*", features = ["derive"] }
homedir = "*"
