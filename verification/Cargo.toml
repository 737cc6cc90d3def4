[package]
name = "rarity-mention"
version = "0.1.0"
edition = "2021"
publish = false

[dependencies]
twilight-model = "0.2"
