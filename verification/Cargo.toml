[package]
name = "navbar"
version = "0.1.0"
edition = "2021"
publish = false

[dependencies]
dioxus = { version = "0.6", default-features = false, features = ["macro", "html", "signals", "hooks"] }
gloo = { version = "0.11", default-features = false, features = ["events"] }
wasm-bindgen = "0.2"
web-sys = { version = "0.3", features = ["Document", "Event", "EventTarget", "HtmlInputElement", "Window"] }
yew = { version = "0.21", features = ["csr"] }
