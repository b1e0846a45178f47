[package]
name = "plumefoil"
version = "0.1.0"
edition = "2021"
publish = false

[dependencies]
bincode = "1.3.3"
serde = { version = "1", features = ["derive"] }
clap = { version = "4", features = ["derive"] }
glam = "0.29"
