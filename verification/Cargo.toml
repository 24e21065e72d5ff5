[package]
name = "axel"
version = "0.1.0"
edition = "2021"
publish = false

[dependencies]
aes = "0.8"
anyhow = "1"
axum = "0.8"
base64 = "0.22"
bytesize = "1"
cbc = { version = "0.1", features = ["alloc"] }
chrono = "0.4"
clap = { version = "4", features = ["derive"] }
const-decoder = "0.4"
const-hex = "1"
deadpool-postgres = "0.14"
flate2 = "1"
futures = "0.3"
indoc = "2"
itertools = "0.14"
jwt-simple = "0.12"
md5 = "0.7"
memmem = "0.1"
openssl = "0.10"
rand = "0.9"
rust_decimal = { version = "1", features = ["db-tokio-postgres"] }
serde = { version = "1", features = ["derive"] }
serde_json = "1"
serde_repr = "0.1"
serde_urlencoded = "0.7"
tokio = { version = "1", features = ["full"] }
tokio-postgres = { version = "0.7", features = ["with-chrono-0_4"] }
tower = { version = "0.5", features = ["util"] }
tracing = "0.1"
tracing-subscriber = { version = "0.3", features = ["env-filter"] }
