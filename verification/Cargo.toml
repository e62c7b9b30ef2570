[package]
name = "zn_ring"
version = "0.1.0"
edition = "2021"
publish = false

[dependencies]
num-traits = "0.2"

[dev-dependencies]
nalgebra = { version = "0.33", default-features = false, features = ["std"] }
