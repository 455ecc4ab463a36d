[package]
name = "manga_shelf"
version = "0.1.0"
edition = "2021"
publish = false

[dependencies]
eframe = { version = "=0.32.3", default-features = false, features = ["glow", "x11", "default_fonts", "persistence"] }
egui = "=0.32.3"
egui_extras = "=0.32.3"
reqwest = { version = "*", default-features = false, features = ["json"] }
serde = { version = "*", features = ["derive"] }
tokio = { version = "*", default-features = false, features = ["rt-multi-thread", "macros"] }
