[package]
name = "image_editor"
version = "0.1.0"
edition = "2021"
publish = false

[dependencies]
anyhow = "*"
futures = "*"
wasm-bindgen = "*"
wasm-bindgen-futures = "*"
web-sys = { version = "*", features = [
    "Blob",
    "CanvasRenderingContext2d",
    "Document",
    "DomRect",
    "DomTokenList",
    "Element",
    "Event",
    "EventTarget",
    "File",
    "FileList",
    "FileReader",
    "HtmlAnchorElement",
    "HtmlButtonElement",
    "HtmlCanvasElement",
    "HtmlElement",
    "HtmlImageElement",
    "HtmlInputElement",
    "HtmlLabelElement",
    "ImageData",
    "MediaQueryList",
    "Node",
    "Window",
    "console",
] }
