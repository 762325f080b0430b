[package]
name = "entrez_rs"
version = "0.1.0"
edition = "2021"
publish = false

[dependencies]
roxmltree = "*"
quick-xml = { version = "*", features = ["serialize"] }
serde = { version = "*", features = ["derive"] }
reqwest = { version = "*", default-features = false, features = ["blocking"] }
