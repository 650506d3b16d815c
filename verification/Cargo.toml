[package]
name = "ticket_scanner"
version = "0.1.0"
edition = "2021"
publish = false

[dependencies]
chrono = "0.4"
rusqlite = { version = "0.32", features = ["bundled"] }
eframe = { version = "0.29", default-features = false, features = ["default_fonts", "glow", "x11"] }
