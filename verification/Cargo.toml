[package]
name = "secmsg_server"
version = "0.1.0"
edition = "2021"
publish = false

[dependencies]
crossbeam = "0.8"
rand = "0.8"
rust-crypto = "0.2"
rustc-serialize = "0.3"
