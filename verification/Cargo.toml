[package]
name = "openscq30_lib"
version = "0.1.0"
edition = "2021"
publish = false

[dependencies]
tokio = { version = "1", default-features = false, features = ["sync"] }
async-trait = "0.1"
