[package]
name = "line_shooter"
version = "0.1.0"
edition = "2021"
publish = false

[dependencies]
rand = "0.7"
quicksilver = "0.3"
gilrs = "0.7"
