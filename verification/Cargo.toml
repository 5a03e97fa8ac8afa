[package]
name = "adcs_scan"
version = "0.1.0"
edition = "2021"
publish = false

[dependencies]
indicatif = "0.17"
reqwest = "0.12"
tokio = { version = "1", features = ["macros", "net", "rt-multi-thread", "time"] }
