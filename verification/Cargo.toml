[package]
name = "wasm_sandbox"
version = "0.1.0"
edition = "2021"
publish = false

[dependencies]
wasmtime = "=45.0.3"
thiserror = "=2.0.21"
