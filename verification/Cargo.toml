[package]
name = "financial_simulator"
version = "0.1.0"
edition = "2021"
publish = false

[dependencies]
leptos = { version = "0.8", features = ["csr"] }
plotly = { version = "*", features = ["wasm"] }
web-sys = { version = "0.3", features = ["Window", "Storage", "Document", "Element", "EventTarget"] }
wasm-bindgen = "0.2"
js-sys = "0.3"
console_log = "1"
log = "0.4"
console_error_panic_hook = "0.1"
