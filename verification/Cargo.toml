[package]
name = "dearrow_browser"
version = "0.1.0"
edition = "2021"
publish = false

[dependencies]
slab = "0.4"
url = "2"
percent-encoding = "2"
regex = "1"
chrono = { version = "0.4", default-features = false, features = ["alloc"] }
serde = { version = "1", features = ["derive"] }
serde_json = "1"
bincode = { version = "2", features = ["derive"] }
