[package]
name = "way_cooler_commands"
version = "0.1.0"
edition = "2021"
publish = false

[dependencies]
rustwlc = { version = "=0.7.0", features = ["dummy"] }
