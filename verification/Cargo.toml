[package]
name = "leveldb_wrapper"
version = "0.1.0"
edition = "2021"
publish = false

[dependencies]
leveldb-sys = "2"
thiserror = "1"
