[package]
name = "matter_core"
version = "0.1.0"
edition = "2021"
publish = false

[dependencies]
regex = "=1.13.1"
uuid = { version = "=1.29.0", features = ["v4"] }

[dev-dependencies]
float-cmp = "=0.10.0"
