[package]
name = "xtb-rs"
version = "0.1.0"
edition = "2021"
publish = false

[dependencies]
serde_json = { version = "=1.0.154", features = ["arbitrary_precision"] }
flume = "=0.10.14"
once_cell = "=1.21.4"
rustls = "=0.19.1"
webpki = "=0.21.4"
webpki-roots = "=0.21.1"
