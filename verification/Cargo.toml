[package]
name = "resource_bridge"
version = "0.1.0"
edition = "2021"
publish = false

[dependencies]
anyhow = "1"
tokio = { version = "1", features = ["macros", "rt-multi-thread"] }
wasmtime = { version = "14", default-features = false, features = ["async", "component-model", "cranelift"] }
wasmtime-wasi = "14"
