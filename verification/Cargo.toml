[package]
name = "anteater"
version = "0.1.0"
edition = "2021"
publish = false

[dependencies]
nix = { version = "0.30", features = ["fs", "process", "ptrace", "signal"] }
rustyline = "15"
thiserror = "2"
plist = "1"
egui = "0.31"
eframe = { version = "0.31", default-features = false, features = ["default_fonts", "glow", "x11"] }
egui_dock = "0.16"
egui_plot = "0.31"
syntect = { version = "5", default-features = false, features = ["default-fancy"] }
