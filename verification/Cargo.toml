[package]
name = "secure_response"
version = "0.1.0"
edition = "2021"
publish = false

[dependencies]
hyper = { version = "0.11", default-features = false }
mime = "0.3"
log = "0.4"

[dev-dependencies]
futures = "0.1"
