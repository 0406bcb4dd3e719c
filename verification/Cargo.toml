[package]
name = "session_runtime"
version = "0.1.0"
edition = "2021"
publish = false

[dependencies]
bevy = { version = "=0.11.3", default-features = false, features = ["bevy_winit", "x11"] }
clap = { version = "=4.6.7", features = ["derive"] }
ctrlc = "=3.5.2"
steamworks = "=0.13.1"
