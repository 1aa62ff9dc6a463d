[package]
name = "tempdir"
version = "0.3.7"
edition = "2021"
publish = false

[dependencies]
rand = "0.4"
