[package]
name = "webln-js"
version = "0.1.0"
edition = "2021"
publish = false

[dependencies]
console_error_panic_hook = "=0.1.7"
js-sys = "=0.3.106"
wasm-bindgen = "=0.2.129"
wasm-bindgen-futures = "=0.4.79"
webln = "=0.1.0"
