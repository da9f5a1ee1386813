[package]
name = "sqlite3dyn"
version = "0.1.0"
edition = "2021"
publish = false

[dependencies]
regex = "*"
libloading = "*"
extargsparse_worker = "*"
extargsparse_codegen = "*"
extlog = "*"
lazy_static = "*"
