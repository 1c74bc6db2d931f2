[package]
name = "shadertoy_loop"
version = "0.1.0"
edition = "2021"
publish = false

[dependencies]
wasm-bindgen = "*"
js-sys = "*"
web-sys = { version = "*", features = ["Window", "CustomEvent", "CustomEventInit", "EventTarget", "Event", "HtmlCanvasElement"] }
serde = { version = "*", features = ["derive"] }
serde-wasm-bindgen = "*"
minwebgl = "*"
