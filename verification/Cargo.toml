[package]
name = "toktok"
version = "0.1.0"
edition = "2021"
publish = false

[dependencies]
clap = { version = "=4.6.7", features = ["derive"] }
jiff = "=0.2.38"
lettre = { version = "=0.11.23", default-features = false, features = ["builder", "smtp-transport", "rustls-no-provider", "webpki-roots"] }
reqwest = { version = "=0.12.28", default-features = false }
tokio = { version = "=1.54.1", features = ["full"] }
tracing = "=0.1.44"
tracing-subscriber = "=0.3.23"
yaml-rust2 = "=0.10.4"
