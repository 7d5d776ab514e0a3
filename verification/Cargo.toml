[package]
name = "verso_session"
version = "0.1.0"
edition = "2021"
publish = false

[dependencies]
wasm-bindgen = "0.2"
web-sys = { version = "0.3", features = ["Window", "Document", "Element", "HtmlCanvasElement"] }
log = "0.4"
wasm-logger = "0.2"
console_error_panic_hook = "0.1"
