[package]
name = "webauthn_core"
version = "0.1.0"
edition = "2021"
publish = false

[dependencies]
sha2 = "=0.10.9"
hmac = "=0.12.1"
hkdf = "=0.12.4"
aes = "=0.8.4"
cbc = "=0.1.2"
p256 = { version = "=0.13.2", features = ["ecdh"] }
rand = "=0.8.8"
unicode-normalization = "*"
libc = "=0.2.190"
dbus = "*"
blurz = "*"
uuid = { version = "=1.27.0", features = ["v4"] }
