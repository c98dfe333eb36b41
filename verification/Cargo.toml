[package]
name = "love_language"
version = "0.1.0"
edition = "2021"
publish = false

[dependencies]
colored = "=2.2.0"
rand = "=0.8.8"
rustc_apfloat = "0.2"
rustyline = "=9.1.2"
thiserror = "=1.0.69"
