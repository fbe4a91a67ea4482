[package]
name = "darkproto"
version = "0.1.0"
edition = "2021"
publish = false

[dependencies]
blake2 = "0.10"
byteorder = "1"
clap = "3.2"
nix = "0.20"
rand = "0.7"
serde = { version = "1", features = ["derive"] }
threshold_crypto = "0.4"
toml = "0.5"
tracing = "0.1"
tracing-subscriber = { version = "0.3", features = ["env-filter"] }
