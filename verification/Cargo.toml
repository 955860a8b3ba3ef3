[package]
name = "retro64-core"
version = "0.1.0"
edition = "2021"
publish = false

[dependencies]
clap = { version = "4", features = ["derive"] }
env_logger = "0.11"
log = "0.4"
sdl2 = "0.37"
wasm-bindgen = "0.2"
console_error_panic_hook = "0.1"
