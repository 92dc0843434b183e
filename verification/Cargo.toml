[package]
name = "rocksdb_build"
version = "0.1.0"
edition = "2021"
publish = false

[dependencies]
cc = "1"
glob = "0.3"
pkg-config = "0.3"
