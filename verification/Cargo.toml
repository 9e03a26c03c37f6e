[package]
name = "lpc1347_rtfm3"
version = "0.1.0"
edition = "2021"
publish = false

[dependencies]
cortex-m = "*"
cortex-m-rtfm = "0.3"
