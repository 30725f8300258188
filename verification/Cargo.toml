[package]
name = "iiif_forager"
version = "0.1.0"
edition = "2021"
publish = false

[dependencies]
serde = { version = "=1.0.229", features = ["derive"] }
serde_json = "1"
actix-web = { version = "=4.15.0", default-features = false, features = ["macros"] }
actix-rt = "=2.15.0"
clap = "=4.6.7"
