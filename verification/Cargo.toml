[package]
name = "archizoom"
version = "0.1.0"
edition = "2021"
publish = false

[dependencies]
wasm-bindgen = "*"
js-sys = "*"
wasm-bindgen-futures = "*"
console_error_panic_hook = "*"
web-sys = { version = "*", features = ["Window", "Document", "Element", "Node", "NodeList", "HtmlElement", "HtmlDivElement", "HtmlImageElement", "CssStyleDeclaration", "Request", "RequestInit", "Response", "SvgsvgElement", "SvgaElement", "SvgElement", "SvgGraphicsElement", "SvgMatrix", "SvgPoint", "SvgRect", "SvgAnimatedRect", "SvgAnimatedString", "Event", "EventTarget", "MouseEvent", "PointerEvent", "TouchEvent", "Touch", "TouchList", "WheelEvent", "DomRect", "console"] }
