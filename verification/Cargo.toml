[package]
name = "mould"
version = "0.1.0"
edition = "2021"
publish = false

[dependencies]
websocket = { version = "*", default-features = false, features = ["sync"] }
