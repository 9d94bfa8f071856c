[package]
name = "flight_core"
version = "0.1.0"
edition = "2021"
publish = false

[dependencies]
half = "=2.7.1"
num-traits = "=0.2.19"
