[package]
name = "fritzapi"
version = "0.1.0"
edition = "2021"
publish = false

[dependencies]
md5 = "=0.8.1"
reqwest = { version = "=0.13.5", default-features = false, features = ["blocking", "query"] }
