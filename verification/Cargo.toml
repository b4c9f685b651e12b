[package]
name = "main_dispatch"
version = "0.1.0"
edition = "2021"
publish = false

[dependencies]
anyhow = "1"
log = "0.4"
parking_lot = "0.12"
tokio = { version = "1", default-features = false, features = ["rt-multi-thread", "sync", "macros", "time"] }
async-std = "1"
