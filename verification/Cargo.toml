[package]
name = "pom"
version = "0.1.0"
edition = "2021"

[dependencies]
egui = "0.27.2"
notify-rust = "4"
