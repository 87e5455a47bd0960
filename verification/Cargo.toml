[package]
name = "readstat"
version = "0.1.0"
edition = "2021"
publish = false

[dependencies]
arrow = "*"
chrono = "0.4"
lexical = "*"
