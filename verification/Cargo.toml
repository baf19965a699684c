[package]
name = "storage_noodle"
version = "0.1.0"
edition = "2021"
publish = false

[dependencies]
base64 = "0.22"
bytes = "1"
itertools = "0.14"
minio = "0.3"
proc-macro2 = "1"
quote = "1"
rand = "0.9"
sqlx = { version = "0.8", default-features = false }
syn = { version = "2", features = ["full"] }
