[package]
name = "cobra_rs"
version = "0.1.0"
edition = "2021"
publish = false

[dependencies]
bytes = "1"
async-trait = "0.1"
tokio = { version = "1", features = ["net", "sync", "time", "rt", "rt-multi-thread", "macros", "io-util"] }
