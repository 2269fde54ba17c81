[package]
name = "sea-orm-spanner"
version = "0.1.0"
edition = "2021"
publish = false

[dependencies]
regex = "=1.13.1"
base64 = "=0.21.7"
sea-query = "=0.32.7"
sea-orm = { version = "=1.1.20", default-features = false, features = ["proxy", "macros", "with-chrono", "with-uuid", "with-json", "with-rust_decimal", "postgres-array"] }
gcloud-spanner = "=1.9.0"
gcloud-googleapis = "=1.3.0"
gcloud-gax = "=1.4.1"
prost-types = "=0.14.4"
async-trait = "=0.1.92"
chrono = "=0.4.45"
time = "=0.3.55"
uuid = "=1.29.0"
serde_json = "=1.0.154"
rust_decimal = "=1.43.0"
tracing = "=0.1.44"
thiserror = "=1.0.69"
clap = { version = "=4.6.7", features = ["derive", "env"] }
dotenvy = "=0.15.7"
rustls = "=0.23.46"
