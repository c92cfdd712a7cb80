[package]
name = "ewin"
version = "0.1.0"
edition = "2021"
publish = false

[dependencies]
unicode-width = "=0.1.14"
encoding_rs = "=0.8.44"
crossterm = "=0.22.1"
colors-transform = "=0.2.11"
faccess = "=0.2.4"
clap = { version = "=3.2.25", features = ["derive"] }
serde = { version = "=1.0.229", features = ["derive"] }
toml = "=0.5.11"
json5 = "=0.4.1"
chrono = "=0.4.45"
ropey = "1"
