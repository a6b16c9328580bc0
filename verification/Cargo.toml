[package]
name = "iota"
version = "0.1.0"
edition = "2021"
publish = false

[dependencies]
uuid = { version = "=1.29.0", features = ["v4"] }
json = "=0.12.4"
ratatui = "=0.29.0"
chrono = "=0.4.45"
open = "=5.4.5"
base64 = "0.22"
rand = "0.8"
rand_core = { version = "0.6", features = ["getrandom"] }
x448 = "0.6"
sha2 = "0.10"
hex = "0.4"
hkdf = "0.12"
aes-gcm = "0.10"
