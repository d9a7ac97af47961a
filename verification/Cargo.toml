[package]
name = "ppap"
version = "0.1.0"
edition = "2021"
publish = false

[dependencies]
anyhow = "*"
clap = { version = "*", features = ["derive"] }
dotenv = "*"
lettre = { version = "=0.11.23", default-features = false, features = ["smtp-transport", "builder"] }
rand = "=0.10.3"
reqwest = { version = "=0.13.5", default-features = false, features = ["blocking"] }
zip = { version = "=8.6.0", default-features = false, features = ["aes-crypto", "deflate"] }

[dev-dependencies]
serde_json = "*"
