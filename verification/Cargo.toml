[package]
name = "wasi_tokio"
version = "0.1.0"
edition = "2021"
publish = false

[dependencies]
tokio = { version = "1", features = ["net"] }
cap-std = "*"
rustix = { version = "*", features = ["fs"] }
