[package]
name = "embassy"
version = "0.1.0"
edition = "2021"
publish = false

[dependencies]
cortex-m = "0.7"
futures = { version = "0.3", default-features = false }
log = "0.4"
nrf52840-pac = "0.9"
darling = "0.10"
proc-macro2 = "1"
quote = "1"
syn = { version = "1", features = ["full"] }
