[package]
name = "chud"
version = "0.1.0"
edition = "2021"

[dependencies]
async-channel = "1"
blake3 = "1"
futures = "0.3"
hex = "0.4"
instant = "0.1"
libp2p = { version = "0.52", features = ["cbor", "dns", "ed25519", "floodsub", "identify", "kad", "macros", "noise", "ping", "request-response", "tcp", "tokio", "websocket"] }
libp2p-autonat = "0.11"
libp2p-mplex = "0.40"
openssl = "0.10"
serde = { version = "1", features = ["derive"] }
serde-wasm-bindgen = "0.5"
serde_json = "1"
tokio = { version = "1", features = ["fs", "io-util", "macros", "rt-multi-thread"] }
wasm-bindgen = "0.2"
wasm-timer = "0.2"
