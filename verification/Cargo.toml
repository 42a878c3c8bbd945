[package]
name = "openapi_struct_gen"
version = "0.1.0"
edition = "2021"
publish = false

[dependencies]
check_keyword = "0.2"
codegen = "0.2"
heck = "0.4"
indexmap = "1"
openapiv3 = "1"
serde_json = "1"
serde_yaml = "0.8"
