[package]
name = "personal_notes"
version = "0.1.0"
edition = "2021"

[dependencies]
anchor-lang = "*"
