[package]
name = "logparser"
version = "0.1.0"
edition = "2021"
publish = false

[dependencies]
chrono = { version = "0.4", default-features = false, features = ["std"] }
flate2 = "1"
hyper = "0.10"
libc = "0.2"
regex = "1"
rustc-serialize = "0.3"
