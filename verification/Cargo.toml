[package]
name = "apple_main"
version = "0.1.0"
edition = "2021"
publish = false

[dependencies]
tokio = { version = "1", features = ["rt-multi-thread", "sync", "time", "net"] }
libtest-mimic = "*"
inventory = "*"
dispatch = "*"
core-foundation = "*"
criterion = { version = "*", default-features = false }
