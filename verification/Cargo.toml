[package]
name = "mech_repl"
version = "0.1.0"
edition = "2021"
publish = false

[dependencies]
clap = "2"
colored = "*"
reqwest = { version = "*", default-features = false, features = ["blocking"] }
