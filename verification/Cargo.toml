[package]
name = "ats_smart_contract"
version = "0.1.0"
edition = "2021"
publish = false

[dependencies]
rust_decimal = "=1.43.0"
semver = "=1.0.28"
uuid = { version = "=1.29.0", features = ["v4"] }
rand = "=0.8.8"
cosmwasm-std = { version = "=1.5.11", features = ["stargate"] }
cosmwasm-storage = "=1.5.2"
cw-storage-plus = "=1.2.0"
provwasm-std = "=2.8.0"
serde = { version = "=1.0.229", features = ["derive"] }
serde_json = "=1.0.154"
schemars = "=0.8.22"
thiserror = "=1.0.69"
clap = { version = "=4.6.7", features = ["env"] }
anyhow = "=1.0.104"
hex = "=0.4.3"
lazy_static = "=1.5.1"
os_pipe = "=1.2.3"
cosm-orc = "=4.0.1"
