[package]
name = "jonashietala"
version = "0.1.0"
edition = "2021"
publish = false

[dependencies]
camino = "=1.2.6"
serde = { version = "=1.0.229", features = ["derive"] }
serde_repr = "=0.1.21"
lazy_static = "=1.5.1"
dirs = "=5.0.1"
eyre = "=0.6.14"
url = "=2.5.8"
tree-sitter-highlight = "=0.20.1"
tree-sitter-rust = "=0.20.4"
regex = "=1.13.1"
