[package]
name = "trader_console"
version = "0.1.0"
edition = "2021"
publish = false

[dependencies]
dotenv = "0.15"
eframe = { version = "0.22", default-features = false, features = ["default_fonts", "glow", "persistence"] }
egui = "0.22"
serde = { version = "1", features = ["derive"] }
space-traders-api = "*"
tokio = { version = "1", features = ["rt-multi-thread", "macros"] }
