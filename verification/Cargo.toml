[package]
name = "cairo_run_adapter"
version = "0.1.0"
edition = "2021"
publish = false

[dependencies]
anyhow = "=1.0.104"
cairo-lang-executable = "=2.13.1"
cairo-lang-runner = "=2.13.1"
cairo-lang-sierra = "=2.13.1"
cairo-vm = "2"
js-sys = "=0.3.106"
serde_json = "=1.0.154"
wasm-bindgen = "=0.2.129"
