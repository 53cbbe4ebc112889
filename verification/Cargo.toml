[package]
name = "defend"
version = "0.1.0"
edition = "2021"
publish = false

[dependencies]
serde = { version = "1", features = ["derive"] }
js-sys = "0.3"
wasm-bindgen = "0.2"
web-sys = { version = "0.3", features = ["Event", "EventTarget", "KeyboardEvent", "Window"] }
gloo-timers = "0.3"
yew = { version = "0.21", features = ["csr"] }
