[package]
name = "area-net"
version = "0.1.0"
edition = "2021"
publish = false

[dependencies]
async-recursion = "1"
atoi = "2"
bytes = "1"
chrono = { version = "0.4", default-features = false, features = ["clock"] }
clap = { version = "4", features = ["derive"] }
config = { version = "0.13", default-features = false, features = ["toml"] }
error-stack = "0.4"
futures = "0.3"
log = "0.4"
serde = { version = "1", features = ["derive"] }
serde_json = "1"
tokio = { version = "1", features = ["full"] }
tokio-util = { version = "0.7", features = ["codec"] }
tracing-subscriber = "0.3"
uuid = { version = "1", features = ["v4", "serde"] }
