[package]
name = "interpreter2"
version = "0.1.0"
edition = "2021"
publish = false

[dependencies]
anyhow = "1"
parse_mediawiki_dump_reboot = "*"
serde_json = "1"
sonic-rs = "*"
thiserror = "*"
