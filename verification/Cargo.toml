[package]
name = "yew_flow"
version = "0.1.0"
edition = "2021"
publish = false

[dependencies]
anyhow = "1"
colorsys = "0.6"
log = "0.4"
serde = { version = "1", features = ["derive"] }
serde_json = "1"
uuid = { version = "1", features = ["v4"] }
wasm-logger = "0.2"
web-sys = { version = "0.3", features = ["DomRect", "Element", "HtmlElement", "HtmlTextAreaElement", "MouseEvent"] }
yew = { version = "0.20", features = ["csr"] }
