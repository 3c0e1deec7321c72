[package]
name = "lodestone_core"
version = "0.1.0"
edition = "2021"
publish = false

[dependencies]
sanitize-filename = "*"
uuid = { version = "*", features = ["v4"] }
