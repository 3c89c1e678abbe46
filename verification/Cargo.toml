[package]
name = "bubbles"
version = "0.1.0"
edition = "2021"
publish = false

[dependencies]
rand = "0.8"
clap = { version = "4", features = ["derive"] }
gif = "0.13"
termsize = "0.1"
