[package]
name = "katbin"
version = "0.1.0"
edition = "2021"
publish = false

[dependencies]
rand = "0.8"
url = "2"
bcrypt = "0.15"
chrono = "0.4"
