[package]
name = "git_req"
version = "0.1.0"
edition = "2021"
publish = false

[dependencies]
log = "0.4"
regex = "1"
reqwest = { version = "0.12", default-features = false, features = ["blocking", "json", "rustls-tls"] }
serde = "1"
serde_derive = "1"
