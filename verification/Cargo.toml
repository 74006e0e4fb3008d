[package]
name = "mmsdm_loader"
version = "0.1.0"
edition = "2021"
publish = false

[dependencies]
futures = "0.3"
log = "0.4"
serde = "1"
serde_json = "1"
tiberius = { version = "0.12", default-features = false, features = ["tds73"] }
