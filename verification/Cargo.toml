[package]
name = "envelope_decrypt"
version = "0.1.0"
edition = "2021"
publish = false

[dependencies]
aes = "0.8"
base64 = "0.22"
cbc = { version = "0.1", features = ["alloc"] }
hkdf = "0.12"
hmac = "0.12"
pbkdf2 = "0.12"
sha2 = "0.10"
wasm-bindgen = "0.2"
