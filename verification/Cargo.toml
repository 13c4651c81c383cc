[package]
name = "sc2_helper"
version = "0.1.0"
edition = "2021"
publish = false

[dependencies]
rand = "0.8"
rayon = "1"
serde = { version = "1", features = ["derive"] }
serde_json = "1"
pyo3 = { version = "*", features = ["extension-module", "abi3-py38"] }
rust-sc2 = "*"
num-traits = "0.2"
enum-primitive-derive = "*"
lazy_static = "1"
