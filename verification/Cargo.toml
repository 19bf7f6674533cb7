[package]
name = "paintfe"
version = "0.1.0"
edition = "2021"
publish = false

[dependencies]
image = { version = "0.25", default-features = false }
web-sys = { version = "0.3", features = ["Window", "Storage", "Navigator"] }
wasm-bindgen = "0.2"
serde = { version = "1", features = ["derive"] }
serde_json = "1"
rayon = "1"
web-time = "1"
