[package]
name = "dynhost"
version = "0.1.0"
edition = "2021"
publish = false

[dependencies]
serde = { version = "*", features = ["derive"] }
serde_json = "*"
urlencoding = "*"
reqwest = { version = "*", default-features = false, features = ["blocking", "gzip", "brotli", "deflate", "native-tls"] }
ini = "*"
chrono = "*"
