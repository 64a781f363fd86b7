[package]
name = "zmc_core"
version = "0.1.0"
edition = "2021"
publish = false

[dependencies]
base64 = "0.22"
png = "0.17"
tokio = { version = "1", features = ["macros", "rt", "rt-multi-thread", "sync", "time"] }
