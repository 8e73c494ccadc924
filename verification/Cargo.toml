[package]
name = "ssd1306_driver"
version = "0.1.0"
edition = "2021"

[dependencies]
i2cdev = "*"
