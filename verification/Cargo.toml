[package]
name = "frontend_auth"
version = "0.1.0"
edition = "2021"
publish = false

[dependencies]
oauth2 = { version = "=4.4.2", default-features = false, features = ["reqwest", "rustls-tls"] }
serde = { version = "=1.0.229", features = ["derive"] }
serde_json = { version = "=1.0.154" }
handlebars = { version = "=4.5.0", features = ["dir_source"] }
tide = { version = "=0.16.0" }
async-std = { version = "=1.13.2" }
