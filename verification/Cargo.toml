[package]
name = "fontresolve"
version = "0.1.0"
edition = "2021"
publish = false

[dependencies]
skrifa = "*"
font-types = "*"
memmap2 = "*"
core-text = "*"
