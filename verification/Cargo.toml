[package]
name = "timex_datalink"
version = "0.1.0"
edition = "2021"
publish = false

[dependencies]
chrono = { version = "=0.4.45", default-features = false, features = ["std", "clock"] }
clap = "=4.6.7"
crc16 = "=0.4.0"
js-sys = "=0.3.106"
num-bigint = "=0.4.8"
serde = { version = "=1.0.229", features = ["derive"] }
serde-wasm-bindgen = "0.6"
serde_json = "=1.0.154"
serial2 = "=0.2.38"
wasm-bindgen = "=0.2.129"
