[package]
name = "currency_layer"
version = "0.1.0"
edition = "2021"
publish = false

[dependencies]
rusty-money = "0.4"
reqwest = { version = "*", default-features = false, features = ["query"] }
