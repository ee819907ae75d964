[package]
name = "highwayhasher"
version = "0.1.0"
edition = "2021"
publish = false

[dependencies]
highway = "1"
napi = "2"
napi-derive = "2"
wasm-bindgen = "0.2"
wee_alloc = "0.4"
