[package]
name = "sd_meta_sorter"
version = "4.4.0"
edition = "2021"
publish = false

[dependencies]
clap = { version = "4", features = ["derive"] }
rayon = "1"
walkdir = "2"
