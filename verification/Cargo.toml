[package]
name = "rootsmagic_importer"
version = "0.1.0"
edition = "2021"
publish = false

[dependencies]
fltk = "1"
reqwest = { version = "0.12", default-features = false, features = ["blocking", "rustls-tls"] }
serde = { version = "1", features = ["derive"] }
serde_json = "1"
serde_urlencoded = "0.7"
thiserror = "1"
