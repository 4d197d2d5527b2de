[package]
name = "common_build"
version = "0.1.0"
edition = "2021"
publish = false

[dependencies]
encoding_rs = "*"
cc = "*"
walkdir = "*"
flate2 = "*"
tar = "*"
reqwest = { version = "*", default-features = false, features = ["blocking", "rustls-tls"] }
