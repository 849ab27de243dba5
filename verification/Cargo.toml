[package]
name = "aivyx-yubi"
version = "0.1.0"
edition = "2021"
publish = false

[dependencies]
openpgp-card = "0.7"
card-backend = "0.2"
card-backend-pcsc = "0.5"
secrecy = "0.10"
thiserror = "2"
