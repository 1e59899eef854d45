[package]
name = "report_card"
version = "0.1.0"
edition = "2021"
publish = false

[dependencies]
printpdf = "0.5"
