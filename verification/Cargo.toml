[package]
name = "ruuth"
version = "0.1.0"
edition = "2021"
publish = false

[dependencies]
argon2 = "0.5"
askama = "0.12"
base32 = "0.4"
base64 = "0.22"
captcha = "*"
qrcode = "0.13"
rand = "0.8"
rpassword = "7"
sha2 = "0.10"
totp-lite = "2"
zxcvbn = "2"
