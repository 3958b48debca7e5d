[package]
name = "protocol"
version = "0.1.0"
edition = "2021"
publish = false

[dependencies]
serde = { version = "1", features = ["derive"] }
futures = "0.3"
tracing = "0.1"
log = "0.4"
lazy_static = "1"
eyre = "0.6"
async-trait = "0.1"
wasm-bindgen = "0.2"
wasm-bindgen-futures = "0.4"
js-sys = "0.3"
web-sys = { version = "0.3", features = ["Window"] }
console_log = "0.2"
cross-websocket = "*"
bevy = { version = "0.6", default-features = false }
