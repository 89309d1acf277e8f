[package]
name = "halving_keyboard"
version = "0.1.0"
edition = "2021"
publish = false

[dependencies]
gilrs = "0.10"
iced_futures = "0.12"
