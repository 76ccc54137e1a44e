[package]
name = "aria_press"
version = "0.1.0"
edition = "2021"
publish = false

[dependencies]
wasm-bindgen = "0.2"
js-sys = "0.3"
web-sys = { version = "0.3", features = [
    "Window",
    "Navigator",
    "Document",
    "Element",
    "HtmlElement",
    "SvgElement",
    "HtmlAnchorElement",
    "HtmlButtonElement",
    "HtmlInputElement",
    "HtmlTextAreaElement",
    "CssStyleDeclaration",
    "DomRect",
    "Event",
    "EventTarget",
    "Node",
    "MouseEvent",
    "PointerEvent",
    "KeyboardEvent",
    "DragEvent",
    "TouchEvent",
    "Touch",
    "TouchList",
    "TransitionEvent",
    "FocusOptions",
] }
