[package]
name = "async_fs"
version = "0.1.0"
edition = "2021"
publish = false

[dependencies]
async-lock = "3"
blocking = "1"
futures-lite = "2"
futures-core = "0.3"
futures-io = "0.3"
