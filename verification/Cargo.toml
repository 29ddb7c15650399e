[package]
name = "floater"
version = "0.1.0"
edition = "2021"
publish = false

[dependencies]
web-sys = { version = "*", features = ["Element", "HtmlElement", "DomRect"] }
