[package]
name = "mcp794xx"
version = "0.1.0"
edition = "2021"
publish = false

[dependencies]
embedded-hal = "=0.2.7"
rtcc = "=0.1.0"
