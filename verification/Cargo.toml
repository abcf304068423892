[package]
name = "zkbtc"
version = "0.1.0"
edition = "2021"
publish = false

[dependencies]
base64 = "*"
bitcoin = "*"
bitcoincore-rpc = "*"
clap = { version = "*", features = ["derive"] }
reqwest = { version = "*", default-features = false }
serde = { version = "*", features = ["derive"] }
serde_json = { version = "*", features = ["raw_value"] }
tokio = { version = "*", features = ["macros", "rt-multi-thread"] }
