[package]
name = "stellar"
version = "0.1.0"
edition = "2021"
publish = false

[dependencies]
rand = "0.7"
sha2 = "=0.8.2"
