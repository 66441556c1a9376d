[package]
name = "sat_tracker"
version = "0.1.0"
edition = "2021"
publish = false

[dependencies]
chrono = "*"
clearscreen = "*"
crossterm = "*"
dialoguer = "*"
image = "*"
indicatif = "*"
reqwest = { version = "*", features = ["json"] }
serde = { version = "*", features = ["derive"] }
serde_json = "*"
sgp4 = "*"
tokio = { version = "*", features = ["rt", "rt-multi-thread", "macros"] }
