[package]
name = "react_jitter"
version = "0.1.0"
edition = "2021"
publish = false

[dependencies]
glob = "=0.3.4"
hex = "=0.4.3"
sha2 = "=0.10.9"
serde = { version = "=1.0.229", features = ["derive"] }
serde_json = "=1.0.154"
swc_core = { version = "=82.2.0", features = ["ecma_plugin_transform", "ecma_ast", "ecma_visit", "ecma_utils", "common"] }

[dev-dependencies]
swc_core = { version = "=82.2.0", features = ["ecma_parser", "ecma_parser_typescript", "ecma_codegen"] }
