[package]
name = "mcp9808"
version = "0.1.0"
edition = "2021"

[dependencies]
embedded-hal = "0.2"
generic-array = "0.14"
i2c-reg = "*"
i2c-reg-derive = "*"
