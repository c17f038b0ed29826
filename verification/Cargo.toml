[package]
name = "webhook_bench"
version = "0.1.0"
edition = "2021"
publish = false

[dependencies]
anyhow = "*"
async-channel = "*"
clap = { version = "*", features = ["derive", "env"] }
humantime = "*"
reqwest = { version = "*", default-features = false }
tokio = { version = "*", features = ["macros", "rt-multi-thread", "sync", "time"] }
tracing = "*"
tracing-subscriber = "*"
url = "*"
