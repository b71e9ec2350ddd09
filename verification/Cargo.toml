[package]
name = "splay"
version = "0.1.0"
edition = "2021"
publish = false

[dependencies]
bincode = "1.3"
crossterm = "0.25"
lofty = "0.9"
log = "0.4"
rodio = "0.17"
serde = { version = "1", features = ["derive"] }
simplelog = "0.12"
symphonia = "0.5"
toml = "0.7"
tui = "0.19"
