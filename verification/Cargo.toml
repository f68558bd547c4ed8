[package]
name = "donny_tango_survivor"
version = "0.1.0"
edition = "2021"
publish = false

[dependencies]
rand = "0.8"
clap = { version = "4", features = ["derive"] }
bevy = { version = "0.17", default-features = false, features = ["std", "bevy_color"] }
