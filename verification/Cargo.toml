[package]
name = "conjure_runtime"
version = "0.1.0"
edition = "2021"
publish = false

[dependencies]
arc-swap = "*"
async-trait = "*"
bytes = "*"
conjure-error = "*"
futures = "*"
hyper = "*"
pin-project = "*"
refreshable = "*"
tokio = { version = "*", features = ["io-util", "rt"] }
witchcraft-metrics = "*"
