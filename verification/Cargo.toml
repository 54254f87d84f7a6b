[package]
name = "wwsvc_rs"
version = "0.1.0"
edition = "2021"
publish = false

[dependencies]
httpdate = "*"
encoding_rs = "*"
md5 = "*"
url = "*"
serde = { version = "*", features = ["derive"] }
serde_json = "*"
reqwest = { version = "*", default-features = false, features = ["json", "rustls-tls"] }
