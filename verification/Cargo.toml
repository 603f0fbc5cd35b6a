[package]
name = "toolbox"
version = "0.1.0"
edition = "2021"
publish = false

[dependencies]
serde = { version = "1", features = ["derive"] }
serde_json = "1"
toml = "*"
thiserror = "*"
wasm-bindgen = "*"
wasm-bindgen-futures = "*"
js-sys = "*"
web-sys = { version = "*", features = ["Document", "Element", "Event", "EventTarget", "HtmlElement", "KeyboardEvent", "Node", "Storage", "Window"] }
gloo-net = { version = "*", default-features = false, features = ["http", "json"] }
leptos = { version = "*", features = ["csr"] }
leptos_router = "*"
console_error_panic_hook = "*"
