[package]
name = "bzn"
version = "0.1.0"
edition = "2021"
publish = false

[dependencies]
html2md = "0.2"
ureq = "1"
chrono = "0.4"
chrono-tz = "0.8"
clap = "2"
shellexpand = "2"
