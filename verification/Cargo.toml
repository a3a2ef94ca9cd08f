[package]
name = "blueprint_runner"
version = "0.1.0"
edition = "2021"
publish = false

[dependencies]
k256 = "0.13"
hex = "0.4"
w3f-bls = "0.1"
rand = "0.8"
tokio = { version = "1", features = ["rt", "rt-multi-thread", "macros", "sync", "time"] }
futures = "0.3"
async-trait = "0.1"
