[package]
name = "buck2_re_recovery"
version = "0.1.0"
edition = "2021"
publish = false

[dependencies]
anyhow = "1"
async-compression = { version = "0.4", features = ["tokio", "zstd", "brotli", "deflate"] }
futures = "0.3"
h2 = "0.4"
lru = "*"
prost = "0.13"
prost-types = "0.13"
rand = "0.10"
regex = "1"
sorted_vector_map = "0.2"
tokio = { version = "1", features = ["fs", "io-util", "macros", "rt", "sync", "time"] }
tokio-util = { version = "0.7", features = ["io"] }
tonic = "0.12"
tracing = "0.1"
uuid = { version = "1", features = ["v4"] }
