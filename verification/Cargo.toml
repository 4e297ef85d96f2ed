[package]
name = "ws2812"
version = "0.1.0"
edition = "2021"
publish = false

[dependencies]
crossbeam = "*"
num-traits = "*"
thiserror = "*"
esp-hal = "*"
