[package]
name = "module_map"
version = "0.1.0"
edition = "2021"
publish = false

[dependencies]
glob = "0.3"
path-clean = "0.1"
tree-sitter = "0.20"
tree-sitter-typescript = "0.20"
