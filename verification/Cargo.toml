[package]
name = "jsx_import"
version = "0.1.0"
edition = "2021"
publish = false

[dependencies]
serde_json = "1"
swc_core = { version = "*", features = ["common", "ecma_ast", "ecma_visit"] }
