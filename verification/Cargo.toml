[package]
name = "totp_vault"
version = "0.1.0"
edition = "2021"
publish = false

[dependencies]
hmac = "0.12"
sha1 = "0.10"
secret-toolkit = { version = "*", default-features = false, features = ["crypto"] }
serde = { version = "1", features = ["derive"] }
schemars = "0.8"
