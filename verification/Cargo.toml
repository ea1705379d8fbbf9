[package]
name = "palettize"
version = "0.1.0"
edition = "2021"
publish = false

[dependencies]
clap = { version = "4", features = ["derive"] }
color-thief = "*"
image = "*"
log = "0.4"
miette = { version = "7", features = ["fancy"] }
simple_logger = "*"
thiserror = "*"
