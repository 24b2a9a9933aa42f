[package]
name = "mpool"
version = "0.1.0"
edition = "2021"
publish = false

[dependencies]
async-trait = "0.1"
tokio = { version = "0.2", default-features = false, features = ["rt-core", "time"] }
