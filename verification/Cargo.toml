[package]
name = "nostr_bunker"
version = "0.1.0"
edition = "2021"
publish = false

[dependencies]
nostro2 = "=0.1.35"
chrono = "=0.4.45"
serde = { version = "=1.0.229", features = ["derive"] }
serde_json = "=1.0.154"
async-channel = "=2.5.0"
yew = { version = "=0.21.0", features = ["csr"] }
yew-router = "=0.18.0"
gloo = "=0.11.0"
gloo-timers = "=0.3.0"
js-sys = "=0.3.106"
wasm-bindgen = "=0.2.129"
wasm-bindgen-futures = "=0.4.79"
web-sys = { version = "=0.3.106", features = ["Window", "Navigator", "Clipboard", "Event", "EventTarget", "MouseEvent", "Element", "HtmlInputElement", "Crypto", "CryptoKey", "SubtleCrypto", "AesKeyGenParams", "ServiceWorkerContainer", "IdbFactory", "IdbDatabase", "IdbOpenDbRequest", "IdbRequest", "IdbTransaction", "IdbTransactionMode", "IdbObjectStore", "IdbObjectStoreParameters"] }
