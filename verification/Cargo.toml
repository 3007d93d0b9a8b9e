[package]
name = "pbmodular"
version = "0.1.0"
edition = "2021"
publish = false

[dependencies]
nice-plug = "*"
nice-plug-iced = "*"
egui = "*"
