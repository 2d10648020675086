[package]
name = "heimlig"
version = "0.1.0"
edition = "2021"
publish = false

[dependencies]
futures = "0.3"
rand_core = { version = "0.6", features = ["getrandom"] }
