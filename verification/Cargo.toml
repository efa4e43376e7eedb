[package]
name = "singlenet_attrs"
version = "0.1.0"
edition = "2021"
publish = false

[dependencies]
openssl = "*"
rustc-serialize = "*"
