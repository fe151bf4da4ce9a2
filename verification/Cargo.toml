[package]
name = "zellinotes_recipes"
version = "0.1.0"
edition = "2021"
publish = false

[dependencies]
actix-web = { version = "4", features = ["rustls-0_23"] }
actix-rt = "2"
actix-cors = "0.7"
rustls = "0.23"
rustls-pemfile = "2"
mongodb = "2"
bson = "2"
futures-util = "0.3"
log = "0.4"
simplelog = "0.12"
serde = { version = "1", features = ["derive"] }
chrono = { version = "0.4", features = ["serde"] }
