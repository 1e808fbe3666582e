[package]
name = "pdf_renderer"
version = "0.1.0"
edition = "2021"
publish = false

[dependencies]
headless_chrome = "1"
log = "0.4"
rand = "0.8"
tokio = { version = "1", features = ["rt", "sync", "time"] }
url = "2"
