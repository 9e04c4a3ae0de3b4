[package]
name = "cert_materializer"
version = "0.1.0"
edition = "2021"
publish = false

[dependencies]
anyhow = "1"
embedded-svc = "0.26"
esp-idf-hal = "0.42"
esp-idf-svc = "0.47"
esp-idf-sys = { version = "0.33", features = ["binstart"] }
log = "0.4"
