[package]
name = "fastsim_vehicle"
version = "0.1.0"
edition = "2021"
publish = false

[dependencies]
anyhow = "1"
argmin = "0.7"
argmin-math = "0.2"
csv = "1"
curl = "0.4"
directories = "5"
ndarray = "0.15"
polynomial = "0.2"
reqwest = { version = "0.11", features = ["blocking"] }
serde = { version = "1", features = ["derive"] }
serde_json = "1"
serde-xml-rs = "*"
serde_yaml = "0.8"
zip = { version = "*", default-features = false, features = ["deflate"] }
