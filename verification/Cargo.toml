[package]
name = "medauth"
version = "0.1.0"
edition = "2021"
publish = false

[dependencies]
argon2 = "=0.5.3"
password-hash = { version = "=0.5.0", features = ["getrandom"] }
zxcvbn = "=3.1.1"
gtin-validate = "=1.3.0"
inquire = "=0.7.5"
