[package]
name = "minimp3"
version = "0.1.0"
edition = "2021"
publish = false

[dependencies]
minimp3-sys = "0.3"
slice-ring-buffer = "0.3"
thiserror = "1"
tokio = { version = "1", default-features = false, features = ["io-util"] }
