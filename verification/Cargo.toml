[package]
name = "cloud_datastore_rs"
version = "0.1.0"
edition = "2021"
publish = false

[dependencies]
futures = "0.3"
gcp_auth = "0.12"
http = "1"
prost = "0.13"
prost-types = "0.13"
time = "0.3"
tonic = { version = "0.12", features = ["tls", "tls-native-roots"] }
tower = "0.4"
