[package]
name = "amp-console"
version = "0.1.0"
edition = "2021"
publish = false

[dependencies]
base64 = "0.22"
gloo-net = { version = "0.6", default-features = false, features = ["http", "json"] }
js-sys = "0.3"
leptos = { version = "0.7", features = ["csr"] }
serde = { version = "1", features = ["derive"] }
serde_json = "1"
uuid = { version = "1", features = ["v4", "js"] }
wasm-bindgen = "0.2"
web-sys = { version = "0.3", features = ["Window", "Storage"] }
