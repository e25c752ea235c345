[package]
name = "majorana_wave_simulator"
version = "0.1.0"
edition = "2021"
publish = false

[dependencies]
bytemuck = "*"
console_error_panic_hook = "*"
libm = "*"
wasm-bindgen = "*"
wasm-bindgen-futures = "*"
wgpu = "*"
web-sys = { version = "*", features = ["Window", "Document", "Element", "HtmlElement", "HtmlCanvasElement", "HtmlInputElement", "Event", "EventTarget", "MouseEvent", "Location", "Node", "MediaRecorder", "MediaRecorderOptions", "MediaStream", "BlobEvent", "Blob", "Url"] }
