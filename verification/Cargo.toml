[package]
name = "serde_v8_magic"
version = "0.1.0"
edition = "2021"
publish = false

[dependencies]
serde = "1"
rusty_v8 = "*"
