[package]
name = "probe_rs_avr"
version = "0.1.0"
edition = "2021"
publish = false

[dependencies]
ihex = "*"
anyhow = "*"
clap = { version = "4", features = ["derive", "env"] }
thiserror = "*"
docsplay = "*"
serde = { version = "1", features = ["derive"] }
tracing = "*"
postcard-schema = { version = "*", features = ["derive"] }
postcard-rpc = { version = "*", default-features = false }
