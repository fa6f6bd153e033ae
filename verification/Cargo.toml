[package]
name = "my_rust_course"
version = "0.1.0"
edition = "2021"
publish = false

[dependencies]
chrono = "0.4"
rusqlite = "*"
eframe = { version = "*", default-features = false, features = ["default_fonts", "glow", "x11"] }
