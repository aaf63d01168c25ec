[package]
name = "databricks_adbc"
version = "0.1.0"
edition = "2021"
publish = false

[dependencies]
adbc_core = "=0.24.0"
arrow-array = "=59.3.1"
arrow-ipc = { version = "=59.3.1", default-features = false }
arrow-schema = "=59.3.1"
