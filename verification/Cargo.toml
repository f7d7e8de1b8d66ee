[package]
name = "rmf"
version = "0.1.0"
edition = "2021"
publish = false

[dependencies]
photon-rs = "0.3.3"
rsmpeg = "*"
tokio = { version = "1", features = ["rt-multi-thread", "macros", "sync", "time"] }
anyhow = "1"
thiserror = "1"
