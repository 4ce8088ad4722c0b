[package]
name = "mdpdf"
version = "0.1.0"
edition = "2021"
publish = false

[dependencies]
anyhow = "=1.0.104"
clap = { version = "=4.6.7", features = ["derive"] }
headless_chrome = "=1.0.17"
pulldown-cmark = "=0.9.6"
syntect = "=5.3.0"
tokio = { version = "=1.53.2", features = ["macros", "rt-multi-thread", "time"] }
