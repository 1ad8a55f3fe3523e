[package]
name = "quick_launch"
version = "0.1.0"
edition = "2021"
publish = false

[dependencies]
clap = { version = "=4.6.7", features = ["string"] }
confy = "=0.6.1"
dirs = "=7.0.0"
egui = { version = "=0.31.1", default-features = false, features = ["default_fonts"] }
open = "=5.4.5"
rfd = { version = "=0.15.4", default-features = false, features = ["xdg-portal", "tokio"] }
serde = { version = "=1.0.229", features = ["derive"] }
