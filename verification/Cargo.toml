[package]
name = "tabby-download"
version = "0.1.0"
edition = "2021"
publish = false

[dependencies]
clap = { version = "4", features = ["derive"] }
error-chain = "0.12"
futures-util = "0.3"
indicatif = "0.17"
reqwest = { version = "0.11", features = ["stream"] }
tokio = { version = "1", features = ["macros", "rt-multi-thread"] }
