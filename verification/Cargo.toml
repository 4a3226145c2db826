[package]
name = "encrypted_stream"
version = "0.1.0"
edition = "2021"
publish = false

[dependencies]
aes-gcm = "=0.10.3"
hkdf = "=0.12.4"
sha1 = "=0.10.7"
rand = "=0.8.8"
tokio = { version = "=1.53.2", features = ["io-util", "net", "rt"] }
