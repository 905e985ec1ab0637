[package]
name = "content_pipeline"
version = "0.1.0"
edition = "2021"
publish = false

[dependencies]
serde_json = "1"
yew = { version = "0.21", features = ["csr"] }
gloo = "0.11"
gloo-storage = "0.3"
log = "0.4"
wasm-bindgen = "0.2"
