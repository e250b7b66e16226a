[package]
name = "ray_particles"
version = "0.1.0"
edition = "2021"
publish = false

[dependencies]
chrono = "0.4"
wasm-bindgen = "0.2"
js-sys = "0.3"
web-sys = { version = "0.3", features = [
    "CanvasRenderingContext2d",
    "Document",
    "Element",
    "EventTarget",
    "HtmlCanvasElement",
    "KeyboardEvent",
    "MouseEvent",
    "Node",
    "Window",
    "console",
] }
