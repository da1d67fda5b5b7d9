[package]
name = "ws_client_core"
version = "0.1.0"
edition = "2021"
publish = false

[dependencies]
wasm-bindgen = "*"
web-sys = { version = "*", features = ["WebSocket", "MessageEvent", "CloseEvent", "Event", "EventTarget", "BinaryType"] }
