[package]
name = "wikitext_simplified"
version = "0.1.0"
edition = "2021"
publish = false

[dependencies]
parse-wiki-text-2 = "*"
