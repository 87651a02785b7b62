[package]
name = "rintha"
version = "0.1.0"
edition = "2021"
publish = false

[dependencies]
sha1 = "*"
serde = { version = "*", features = ["derive"] }
thiserror = "*"
shellexpand = "*"
confy = "*"
clap = { version = "*", features = ["derive"] }
bunt = "*"
downloader = "*"
femtorinth = "*"
