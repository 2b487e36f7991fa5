[package]
name = "dx_bytecode"
version = "0.1.0"
edition = "2021"
publish = false

[dependencies]
anyhow = "1"
find-winsdk = "*"
glob = "0.3"
rayon = "1"
walkdir = "2"

[dev-dependencies]
nom = "7"
