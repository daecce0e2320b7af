[package]
name = "offload"
version = "0.1.0"
edition = "2021"
publish = false

[dependencies]
ctrlc = "3"
futures = "0.3"
futures-lite = "2"
git2 = { version = "*", default-features = false }
openssh = "*"
tokio = { version = "1", features = ["rt-multi-thread", "macros", "io-util", "sync", "time"] }
tokio-stream = { version = "0.1", features = ["io-util"] }
