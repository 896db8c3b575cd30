[package]
name = "starfield"
version = "0.1.0"
edition = "2021"
publish = false

[dependencies]
bytemuck = { version = "=1.25.2", features = ["derive"] }
console_error_panic_hook = "=0.1.7"
console_log = "=1.1.0"
js-sys = "=0.3.106"
log = "=0.4.34"
raw-window-handle = "=0.6.2"
serde = { version = "=1.0.229", features = ["derive"] }
serde-wasm-bindgen = "=0.6.5"
wasm-bindgen = "=0.2.129"
wasm-bindgen-futures = "=0.4.79"
web-sys = { version = "=0.3.106", features = ["CanvasRenderingContext2d", "Document", "Element", "HtmlCanvasElement", "Window"] }
wgpu = { version = "=23.0.1", default-features = false, features = ["webgl", "wgsl"] }
winit = "0.29"
