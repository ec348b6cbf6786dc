[package]
name = "arti_android"
version = "0.1.0"
edition = "2021"
publish = false

[dependencies]
anyhow = "1"
jni = "0.21"
tokio = { version = "1", features = ["rt-multi-thread", "net", "io-util", "time", "macros"] }
