[package]
name = "trait_link"
version = "0.1.0"
edition = "2021"
publish = false

[dependencies]
convert_case = "=0.12.0"
serde = { version = "=1.0.229", features = ["derive"] }
serde_json = "=1.0.154"
ciborium = "=0.2.2"
thiserror = "=2.0.21"
futures = "=0.3.34"
tokio = { version = "=1.54.1", features = ["rt", "net", "macros"] }
tokio-tungstenite = "=0.30.0"
syn = { version = "=2.0.119", features = ["full"] }
quote = "=1.0.47"
proc-macro2 = "=1.0.107"
reqwest = { version = "=0.13.5", default-features = false, features = ["json", "blocking"] }
axum = "=0.8.9"
bon = "*"
tracing = "*"
web-sys = { version = "*", features = ["Headers", "Request", "RequestInit", "RequestMode", "Response", "Window"] }
wasm-bindgen-futures = "*"
serde-wasm-bindgen = "*"
ws_stream_wasm = "*"
