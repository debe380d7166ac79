[package]
name = "wasui-memory"
version = "0.1.0"
edition = "2021"
publish = false

[dependencies]
js-sys = "=0.3.106"
thiserror = "=1.0.69"
wasm-bridge = "*"
