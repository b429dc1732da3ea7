[package]
name = "table_layout"
version = "0.1.0"
edition = "2021"
publish = false

[dependencies]
egui = "=0.17.0"
epi = "0.17"
glium = "0.31"
