[package]
name = "tls_async"
version = "0.1.0"
edition = "2021"
publish = false

[dependencies]
futures = "0.3"
native-tls = "0.2"
