[package]
name = "sparrow_wasm"
version = "0.1.0"
edition = "2021"
publish = false

[dependencies]
anyhow = "=1.0.104"
console_error_panic_hook = "=0.1.7"
fern = "=0.7.1"
jagua-rs = { version = "=1.1.0", features = ["spp"] }
js-sys = "=0.3.106"
log = "=0.4.34"
once_cell = "=1.21.4"
rand = "=0.9.5"
serde-wasm-bindgen = "=0.6.5"
serde_json = "=1.0.154"
wasm-bindgen = "=0.2.129"
wasm-bindgen-rayon = "=1.3.0"
web-sys = { version = "=0.3.106", features = ["console"] }
web-time = "=1.1.0"
