[package]
name = "trait_set"
version = "0.3.0"
edition = "2021"
publish = false

[dependencies]
proc-macro2 = "1"
syn = "2"
