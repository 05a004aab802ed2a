[package]
name = "chat-app"
version = "0.1.0"
edition = "2021"
publish = false

[dependencies]
console_error_panic_hook = "0.1"
js-sys = "0.3"
serde = { version = "1", features = ["derive"] }
serde_json = "1"
wasm-bindgen = "0.2"
web-sys = { version = "0.3", features = ["console", "Document", "Element", "Event", "Headers", "HtmlButtonElement", "HtmlElement", "HtmlInputElement", "KeyboardEvent", "Location", "Request", "RequestInit", "Response", "Window"] }
