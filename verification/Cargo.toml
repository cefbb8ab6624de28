[package]
name = "gpui_form"
version = "0.1.0"
edition = "2021"
publish = false

[dependencies]
heck = "0.5"
syn = { version = "2", features = ["full", "parsing"] }
quote = "1"
proc-macro2 = "1"
phonenumber = "*"
