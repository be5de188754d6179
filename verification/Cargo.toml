[package]
name = "wasmut"
version = "0.1.0"
edition = "2021"
publish = false

[dependencies]
parity-wasm = "0.42"
rustc-demangle = "0.1"
wasmi = "0.11"
