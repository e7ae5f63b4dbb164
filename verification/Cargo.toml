[package]
name = "seismic_response"
version = "0.1.0"
edition = "2021"
publish = false

[dependencies]
js-sys = "0.3"
serde = { version = "1", features = ["derive"] }
tsify = "*"
wasm-bindgen = "0.2"
