[package]
name = "tmpfs"
version = "0.1.0"
edition = "2021"
publish = false

[dependencies]
assert_fs = "*"
camino = "*"
filetime = "*"
fs-err = "*"
include_dir = "*"
symlink = "*"
walkdir = "*"
