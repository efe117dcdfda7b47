[package]
name = "wx_tir"
version = "0.1.0"
edition = "2021"
publish = false

[dependencies]
codespan-reporting = "*"
string-interner = "*"
