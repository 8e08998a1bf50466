[package]
name = "kiosk_dashboard"
version = "0.1.0"
edition = "2021"
publish = false

[dependencies]
chrono = "=0.4.45"
serde = { version = "=1.0.229", features = ["derive"] }
serde_json = "=1.0.154"
reqwest = { version = "=0.12.28", default-features = false, features = ["json"] }
slint = { version = "=1.18.1", default-features = false, features = ["std", "compat-1-2"] }
wasm-bindgen = "=0.2.129"
wasm-bindgen-futures = "=0.4.79"
web-sys = { version = "=0.3.106", features = ["Window", "Storage"] }
console_error_panic_hook = "=0.1.7"
