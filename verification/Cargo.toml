[package]
name = "mlp_bench"
version = "0.1.0"
edition = "2021"
publish = false

[dependencies]
burn = { version = "=0.13.2", default-features = false, features = ["ndarray", "std"] }
bincode = { version = "=2.0.0-rc.3", default-features = false }
