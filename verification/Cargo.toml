[package]
name = "safenode_service"
version = "0.1.0"
edition = "2021"
publish = false

[dependencies]
libp2p-identity = { version = "0.2", features = ["peerid", "ed25519", "rand"] }
libp2p = { version = "0.53", default-features = false }
serde = { version = "1", features = ["derive"] }
serde_json = "1"
clap = { version = "4", features = ["derive"] }
dirs-next = "2"
eyre = "0.6"
color-eyre = "0.6"
tokio = { version = "1", features = ["rt", "macros", "sync", "time", "signal"] }
tonic = { version = "0.10", default-features = false }
indicatif = "0.17"
async-trait = "0.1"
tracing-core = "0.1"
tracing-appender = "0.2"
