[package]
name = "rand_facade"
version = "0.1.0"
edition = "2021"
publish = false

[dependencies]
rand = "0.8"
cortex-m = "0.7"
