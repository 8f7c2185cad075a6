[package]
name = "snake_bevy_wasm_pwa"
version = "0.1.0"
edition = "2021"
publish = false

[dependencies]
wasm-bindgen = "0.2"
log = "0.4"
wasm-logger = "0.2"
wasm-rs-dbg = "*"
console_error_panic_hook = "0.1"
