[package]
name = "obscuravpn_client"
version = "0.1.0"
edition = "2021"
publish = false

[dependencies]
etherparse = "=0.16.0"
rand = "=0.8.8"
nix = { version = "=0.29.0", features = ["time", "user"] }
ipnetwork = "=0.21.1"
anyhow = "=1.0.104"
async-trait = "=0.1.92"
tokio = { version = "=1.54.1", features = ["sync", "rt", "macros", "time", "net", "io-util"] }
serde = { version = "=1.0.229", features = ["derive"] }
serde_json = "=1.0.154"
tracing = "=0.1.44"
shlex = "1"
