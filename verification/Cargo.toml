[package]
name = "pi_control"
version = "0.1.0"
edition = "2021"
publish = false

[dependencies]
rppal = "*"
pcf8591 = "*"
wasm-bindgen = "*"
wasm-bindgen-futures = "*"
js-sys = "*"
