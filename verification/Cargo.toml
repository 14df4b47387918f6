[package]
name = "rkvm_server"
version = "0.1.0"
edition = "2021"
publish = false

[dependencies]
anyhow = "1"
arboard = { version = "3", default-features = false }
bincode = "1"
env_logger = "0.11"
libc = "0.2"
log = "0.4"
nix = { version = "0.29", features = ["user"] }
notify-rust = "4"
serde = { version = "1", features = ["derive"] }
structopt = "0.3"
tokio = { version = "1", features = ["full"] }
tokio-native-tls = "0.3"
toml = "0.8"
