[package]
name = "zabawa"
version = "0.1.0"
edition = "2021"
publish = false

[dependencies]
deunicode = "1"
hypertext = "*"
thiserror = "*"
derive_more = { version = "*", features = ["display", "into"] }
