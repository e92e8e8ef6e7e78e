[package]
name = "wesl"
version = "0.1.0"
edition = "2021"
publish = false

[dependencies]
itertools = "0.13"
thiserror = "1"
derive_more = { version = "1", features = ["from"] }
