[package]
name = "wasm_gol"
version = "0.1.0"
edition = "2021"
publish = false

[dependencies]
fixedbitset = "0.4"
rand = "0.8"
wasm-bindgen = "0.2"
