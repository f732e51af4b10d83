[package]
name = "rslsk"
version = "0.1.0"
edition = "2021"
publish = false

[dependencies]
buf_redux = "0.8"
buffer-redux = "1"
flate2 = "1"
md5 = "0.7"
rand = "0.8"
tokio = { version = "1", features = ["full"] }
