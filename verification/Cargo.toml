[package]
name = "iitkgp_erp_login"
version = "0.1.0"
edition = "2021"
publish = false

[dependencies]
scraper = "=0.27.0"
reqwest = { version = "=0.13.5", default-features = false, features = ["cookies", "form"] }
tokio = { version = "=1.53.2", features = ["rt-multi-thread", "macros"] }
