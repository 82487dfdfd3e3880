[package]
name = "randcast"
version = "0.1.0"
edition = "2021"
publish = false

[dependencies]
threshold-bls = "=0.2.2"
bincode = "=1.3.3"
rand = "=0.8.8"
