[package]
name = "seh_unwind"
version = "0.1.0"
edition = "2021"
publish = false

[dependencies]
fallible-iterator = "0.3"
goblin = "*"
thiserror = "1"
zerocopy = "0.6"
