[package]
name = "scrapbot"
version = "0.1.0"
edition = "2021"
publish = false

[dependencies]
rand = "0.8"
itertools = "0.10"
anyhow = "1"
log = "0.4"
ron = "0.8"
serde = { version = "1", features = ["derive"] }
xmltree = "0.10"
wasm-cookies = "*"
