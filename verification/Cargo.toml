[package]
name = "favicon_resolver"
version = "0.1.0"
edition = "2021"
publish = false

[dependencies]
base64 = "0.21"
enigo = "0.2"
log = "0.4"
reqwest = "0.12"
scraper = "0.20"
sha2 = "0.10"
url = "2"

[dev-dependencies]
hex = "0.4"
