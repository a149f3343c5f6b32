[package]
name = "pongo"
version = "0.1.0"
edition = "2021"
publish = false

[dependencies]
rand = "=0.8.8"
glam = "=0.27.0"
serde_json = "=1.0.154"
wasm-bindgen = "=0.2.130"
js-sys = "=0.3.107"
web-sys = { version = "=0.3.107", features = ["Window", "Performance", "HtmlCanvasElement", "CanvasRenderingContext2d", "KeyboardEvent"] }
console_error_panic_hook = "=0.1.7"
worker = "=0.8.7"

[dev-dependencies]
postcard = { version = "=1.1.3", features = ["alloc"] }
