[package]
name = "retest_gate"
version = "0.1.0"
edition = "2021"
publish = false

[dependencies]
anyhow = "*"
rust-ini = "*"
tiberius = "*"
tokio = { version = "*", features = ["rt-multi-thread", "macros", "net"] }
tokio-util = { version = "*", features = ["compat"] }
