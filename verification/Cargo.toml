[package]
name = "oxide_manager"
version = "0.1.0"
edition = "2021"
publish = false

[dependencies]
dirs = "*"
rust-ini = "*"
zip = { version = "*", default-features = false, features = ["deflate"] }
unrar = "*"
sevenz-rust2 = "*"
steamgriddb_api = "*"
reqwest = "*"
tokio = { version = "*", features = ["rt-multi-thread"] }
image = { version = "*", default-features = false, features = ["png", "jpeg"] }
dotenv = "*"
