[package]
name = "http_load_tester"
version = "0.1.0"
edition = "2021"
publish = false

[dependencies]
goose = "0.17"
reqwest = { version = "0.11", features = ["cookies", "gzip", "brotli"] }
tokio = { version = "1", features = ["macros", "rt-multi-thread", "time"] }
cloud-storage = "0.11"
xflags = "0.3"
