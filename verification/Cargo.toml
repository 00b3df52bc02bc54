[package]
name = "openapi_types_generator"
version = "0.1.0"
edition = "2021"
publish = false

[dependencies]
convert_case = "0.6"
serde = { version = "1", features = ["derive"] }
serde_yaml = "0.9"
serde_json = "1"
proc-macro2 = "1"
quote = "1"
log = "0.4"
env_logger = "0.10"

[dev-dependencies]
regex = "1"
