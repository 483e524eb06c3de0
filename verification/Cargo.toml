[package]
name = "sizer"
version = "0.1.0"
edition = "2021"
publish = false

[dependencies]
byte-unit = { version = "4", features = ["serde"] }
clap = { version = "4", features = ["derive"] }
display_json = "0.2"
glob = "0.3"
serde = { version = "1", features = ["derive"] }
serde_json = "1"
