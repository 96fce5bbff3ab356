[package]
name = "cloud_backup"
version = "0.1.0"
edition = "2021"
publish = false

[dependencies]
bip39 = "2"
flume = "*"
hex = "0.4"
jiff = "0.2"
parking_lot = "0.12"
rand = "*"
redb = "*"
serde = { version = "1", features = ["derive"] }
serde_json = "1"
thiserror = "2"
tokio = { version = "1", features = ["rt", "rt-multi-thread", "sync", "time"] }
tracing = "0.1"
zeroize = "1"
