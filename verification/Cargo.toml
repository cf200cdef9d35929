[package]
name = "weact_epaper_154_rs"
version = "0.1.2"
edition = "2021"
publish = false

[dependencies]
embedded-hal = "1.0.0"
embedded-graphics-core = "0.4.0"
