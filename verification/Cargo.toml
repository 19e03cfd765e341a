[package]
name = "shader_graph"
version = "0.1.0"
edition = "2021"
publish = false

[dependencies]
serde_json = { version = "=1.0.151", features = ["preserve_order"] }
serde = "=1.0.229"
error-chain = "=0.12.4"
rasen = "=0.12.0"
spirv-utils = "=0.2.1"
rspirv = "=0.5.4"
spirv_headers = "=1.5.0"
