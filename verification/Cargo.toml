[package]
name = "wasm_tracer"
version = "0.1.0"
edition = "2021"
publish = false

[dependencies]
lazy_static = "1.4"
wasmi_core = "0.2"
