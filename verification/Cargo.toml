[package]
name = "quinn_holepunch"
version = "0.1.0"
edition = "2021"
publish = false

[dependencies]
anyhow = "1"
async-stream = "0.3"
async-trait = "0.1"
clap = { version = "4", features = ["derive"] }
futures = "0.3"
postcard = { version = "1", default-features = false, features = ["use-std"] }
quinn = "0.9"
quinn-udp = "0.3"
rand = "0.8"
rcgen = "0.10"
rustls = { version = "0.20", features = ["dangerous_configuration", "quic"] }
serde = { version = "1", features = ["derive"] }
tokio = { version = "1", features = ["full"] }
tracing = "0.1"
tracing-subscriber = "0.3"
