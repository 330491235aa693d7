[package]
name = "wasi_harness"
version = "0.1.0"
edition = "2021"
publish = false

[dependencies]
eyre = "=0.6.14"
tokio = { version = "=1.54.1", features = ["rt-multi-thread"] }
virtual-fs = "=0.601.0"
wasmer = "=6.1.0"
wasmer-compiler-cranelift = "=6.1.0"
wasmer-types = "=6.1.0"
