[package]
name = "river_raid"
version = "0.1.0"
edition = "2021"
publish = false

[dependencies]
crossterm = "0.27"
rand = "0.8"
uuid = { version = "1", features = ["v4"] }
