[package]
name = "snowball_stem_cache"
version = "0.1.0"
edition = "2021"
publish = false

[dependencies]
lru = "*"
rayon = "*"
rust-stemmers = "*"
