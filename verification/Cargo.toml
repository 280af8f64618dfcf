[package]
name = "wasmtime-runtime"
version = "0.1.0"
edition = "2021"
publish = false

[dependencies]
wasmtime-environ = "8.0.0"
