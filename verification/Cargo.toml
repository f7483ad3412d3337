[package]
name = "ssg"
version = "0.1.0"
edition = "2021"
publish = false

[dependencies]
clap = "4"
glob = "0.3"
pulldown-cmark = { version = "*", default-features = false, features = ["html"] }
tera = "1"
tiny_http = "0.12"
