[package]
name = "basisu_c_sys"
version = "0.1.0"
edition = "2021"
publish = false

[dependencies]
serde = { version = "1", features = ["derive"] }
thiserror = "2"
bitflags = "2"
spin = "*"
async-lock = "3"
clap = { version = "4", features = ["derive"] }
log = "0.4"
cc = "1"
js-sys = "0.3"
wasm-bindgen = "0.2"
