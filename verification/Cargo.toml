[package]
name = "edgarcnp_dev"
version = "0.1.0"
edition = "2021"
publish = false

[dependencies]
wasm-bindgen = "=0.2.129"
web-sys = { version = "=0.3.106", features = ["Window", "Document", "Element", "HtmlElement", "Node", "Storage", "MediaQueryList", "Event", "MouseEvent", "EventTarget", "ScrollIntoViewOptions", "ScrollBehavior", "DomTokenList"] }
