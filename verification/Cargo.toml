[package]
name = "meshflash"
version = "0.1.0"
edition = "2021"
publish = false

[dependencies]
zip = { version = "=8.6.0", default-features = false, features = ["deflate"] }
serialport = { version = "=4.10.1", default-features = false }
reqwest = { version = "*", default-features = false, features = ["rustls-tls"] }
tokio = { version = "*", features = ["rt-multi-thread", "macros", "fs", "io-util", "sync"] }
serde = { version = "*", features = ["derive"] }
serde_json = "*"
