[package]
name = "bbs_post"
version = "0.1.0"
edition = "2021"
publish = false

[dependencies]
url = "2"
encoding_rs = "0.8"
percent-encoding = "2"
regex = "1"
reqwest = { version = "0.12", default-features = false, features = ["stream", "rustls-tls"] }
futures = "0.3"
anyhow = "1"
tracing = "0.1"
tracing-subscriber = "0.3"
async-trait = "0.1"
objc2 = "0.6"
objc2-app-kit = "0.3"
objc2-foundation = "0.3"
dispatch2 = "0.3"
