[package]
name = "sierra2mlir"
version = "0.1.0"
edition = "2021"
publish = false

[dependencies]
cairo-lang-sierra = "=2.20.0"
color-eyre = "=0.6.5"
melior-next = "=0.5.7"
tracing = "=0.1.44"
