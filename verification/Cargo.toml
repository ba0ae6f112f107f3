[package]
name = "gloo-websocket"
version = "0.1.0"
edition = "2021"
publish = false

[dependencies]
futures-core = "0.3"
futures-sink = "0.3"
gloo-events = "0.1"
js-sys = "0.3"
wasm-bindgen = "0.2"
web-sys = { version = "0.3", features = ["BinaryType", "CloseEvent", "DomException", "Event", "EventTarget", "MessageEvent", "WebSocket"] }
