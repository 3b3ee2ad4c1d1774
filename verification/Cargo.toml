[package]
name = "polari"
version = "0.1.0"
edition = "2021"
publish = false

[dependencies]
isolang = "*"
lingua = { version = "*", default-features = false, features = ["english", "french", "german", "spanish", "italian", "dutch", "portuguese", "swedish"] }
whatlang = "*"
whichlang = "*"
