[package]
name = "kernel_wallet"
version = "0.1.0"
edition = "2021"
publish = false

[dependencies]
bitcoin = { version = "=0.32.102", features = ["rand-std"] }
bitcoin-coin-selection = { version = "=0.9.0", features = ["rand"] }
silentpayments = "=0.5.0"
clap = { version = "=4.6.7", features = ["derive"] }
log = "=0.4.35"
env_logger = "=0.11.11"
bitcoinkernel = "=0.3.2"
tokio = { version = "=1.54.1", features = ["net", "rt"] }
tokio-util = { version = "=0.7.20", features = ["compat"] }
futures = "=0.3.34"
capnp = "=0.27.3"
capnp-rpc = "=0.27.3"
