[package]
name = "chain_map"
version = "0.1.0"
edition = "2021"
publish = false

[dependencies]
dashmap = "*"
im = "*"
indexmap = "*"
radix_trie = "*"
sled = "*"
