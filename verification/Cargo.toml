[package]
name = "archive_extract"
version = "0.1.0"
edition = "2021"
publish = false

[dependencies]
libarchive3-sys = "0.1.2"
libc = "0.2"
thiserror = "1"
