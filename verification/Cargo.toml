[package]
name = "h100i_tool"
version = "0.1.0"
edition = "2021"
publish = false

[dependencies]
clap = { version = "4", features = ["derive"] }
hidapi = "2"
thiserror = "1"
