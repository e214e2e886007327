[package]
name = "feed_curator"
version = "0.1.0"
edition = "2021"
publish = false

[dependencies]
rand = "0.8"
rss = "2"
scraper = "*"
reqwasm = "0.5"
wasm-bindgen-futures = "0.4"
yew = { version = "0.21", features = ["csr"] }
