[package]
name = "trip"
version = "0.1.0"
edition = "2021"
publish = false

[dependencies]
descartes = "=0.1.20"
itertools = "=0.15.0"
ordered-float = "=5.5.0"
rand = "=0.4.6"
