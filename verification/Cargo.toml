[package]
name = "biscuit_token"
version = "0.1.0"
edition = "2021"
publish = false

[dependencies]
biscuit-auth = "=3.2.0"
biscuit-parser = "=0.1.2"
base64 = "=0.13.1"
hex = "=0.4.3"
rand = "0.7"
getrandom = "0.2"
serde = "1"
