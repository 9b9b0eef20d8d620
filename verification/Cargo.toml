[package]
name = "ctv_emulators"
version = "0.1.0"
edition = "2021"
publish = false

[dependencies]
bitcoin = "*"
tokio = { version = "*", features = ["full"] }
proc-macro2 = "*"
quote = "*"
syn = { version = "1", features = ["full"] }
