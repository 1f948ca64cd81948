[package]
name = "handyman"
version = "0.1.0"
edition = "2021"
publish = false

[dependencies]
async-trait = "*"
clap = { version = "*", features = ["derive"] }
color-eyre = "*"
futures = "*"
reqwest = { version = "*", default-features = false }
serde = { version = "*", features = ["derive"] }
tokio = { version = "*", features = ["rt-multi-thread", "time", "macros"] }
toml = "*"
tracing = "*"
tracing-journald = "*"
tracing-subscriber = "*"
which = "*"
