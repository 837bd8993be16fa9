[package]
name = "satisfactory_start_optimizer"
version = "0.1.0"
edition = "2021"
publish = false

[dependencies]
serde = { version = "1", features = ["derive"] }
serde_json = "1"
rayon = "1"
actix-web = "4"
actix-cors = "0.7"
