[package]
name = "cargo-whynot"
version = "0.1.0"
edition = "2021"
publish = false

[dependencies]
clap = { version = "3.2", features = ["derive"] }
codespan-reporting = "0.11"
color-eyre = "0.6"
eyre = "0.6"
itertools = "0.10"
rustc-hash = "1"
syn-select = "*"
termcolor = "1"
tracing = "0.1"
