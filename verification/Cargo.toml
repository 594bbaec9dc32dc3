[package]
name = "spacewire"
version = "0.1.0"
edition = "2021"
publish = false

[dependencies]
ring = "0.16"
bytes = "1"
tokio = { version = "1", features = ["rt-multi-thread", "net", "io-util", "time"] }
structopt = "0.3"
anyhow = "1"
bech32 = "0.9"
log = "0.4"
pretty_env_logger = "0.4"
