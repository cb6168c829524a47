[package]
name = "psbt_explorer"
version = "0.1.0"
edition = "2021"
publish = false

[dependencies]
bitcoin = { version = "=0.27.1", features = ["base64"] }
log = "=0.4.34"
wasm-bindgen = "=0.2.129"
web-sys = { version = "=0.3.106", features = ["CssStyleDeclaration", "HtmlElement", "HtmlSelectElement"] }
yew = "=0.18.0"
