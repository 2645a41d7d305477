[package]
name = "layer_console"
version = "0.1.0"
edition = "2021"
publish = false

[dependencies]
const_format = "0.2"
gtk4 = { version = "*", features = ["v4_12"] }
gtk4-layer-shell = "*"
nix = { version = "0.29", features = ["user"] }
serde = { version = "1", features = ["derive"] }
serde_ignored = "0.1"
toml = "0.8"
vte4 = "*"
