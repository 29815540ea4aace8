[package]
name = "tide_diesel"
version = "0.1.0"
edition = "2021"
publish = false

[dependencies]
diesel = { version = "2", features = ["r2d2"] }
tide = "0.16"
async-std = "1"
