[package]
name = "ice_shared"
version = "0.1.0"
edition = "2021"
publish = false

[dependencies]
iceoryx2 = { version = "=0.6.1", features = ["libc_platform"] }
chrono = "=0.4.45"
anyhow = "=1.0.104"
clap = { version = "=4.6.7", features = ["derive"] }
fern = "=0.6.2"
log = "=0.4.34"
tokio = { version = "=1.54.1", features = ["full"] }
tokio-util = "=0.7.20"
