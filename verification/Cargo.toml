[package]
name = "essential_apps"
version = "0.1.0"
edition = "2021"
publish = false

[dependencies]
anyhow = "=1.0.104"
essential-hash = "=0.10.0"
essential-rest-client = "=0.7.0"
essential-sign = "=0.12.0"
essential-signer = "=0.4.0"
essential-types = "=0.7.0"
essential-wallet = { version = "=0.5.0", features = ["test-utils"] }
