[package]
name = "vtracer"
version = "0.1.0"
edition = "2021"
publish = false

[dependencies]
visioncortex = "0.8"
fastrand = "1"
image = "0.24"
clap = "2"
serde = { version = "1", features = ["derive"] }
serde_json = "1"
wasm-bindgen = "0.2"
web-sys = { version = "0.3", features = ["CanvasRenderingContext2d", "Document", "Element", "HtmlCanvasElement", "ImageData", "Node", "Window", "console"] }
console_log = "0.2"
log = "0.4"
pyo3 = "0.19"
