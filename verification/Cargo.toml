[package]
name = "spatial-import-tool"
version = "0.1.0"
edition = "2021"
publish = false

[dependencies]
serde = { version = "1", features = ["derive"] }
serde_json = "1"
dirs = "*"
log = "0.4"
env_logger = "*"
bytes = "1"
postgres = "0.19"
odbc-api = "*"
gdal = "*"
