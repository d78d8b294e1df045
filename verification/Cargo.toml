[package]
name = "render_adapter"
version = "0.1.0"
edition = "2021"
publish = false

[dependencies]
mime = "*"
mime_guess = "2"
handlebars = "*"
tera = { version = "*", default-features = false }
askama = "*"
horrorshow = "*"
http = "*"
