[package]
name = "yew-bootstrap"
version = "0.1.0"
edition = "2021"
publish = false

[dependencies]
yew = { version = "0.21", features = ["csr"] }
popper-rs = { version = "0.3", features = ["yew"] }
wasm-bindgen = "0.2"
web-sys = { version = "0.3", features = ["Element", "Event", "EventTarget", "FocusEvent", "HtmlElement", "HtmlInputElement", "HtmlTextAreaElement", "KeyboardEvent", "Node", "NodeList"] }
gloo = "0.10"
