[package]
name = "bluestation"
version = "0.1.0"
edition = "2021"
publish = false

[dependencies]
as-any = "*"
clap = { version = "4", features = ["derive"] }
serde = { version = "1", features = ["derive"] }
toml = "*"
tracing = "0.1"
