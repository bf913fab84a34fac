[package]
name = "nft_pipeline"
version = "0.1.0"
edition = "2021"
publish = false

[dependencies]
serde = { version = "=1.0.229", features = ["derive"] }
serde_json = "=1.0.154"
sha2 = "=0.10.9"
ethers = { version = "=2.0.14", default-features = false, features = ["ws", "abigen"] }
anyhow = "=1.0.104"
tokio = { version = "=1.54.1", features = ["rt-multi-thread", "macros", "time", "net"] }
tokio-stream = "=0.1.19"
reqwest = { version = "=0.11.27", default-features = false, features = ["json", "rustls-tls"] }
dotenvy = "0.15"
rdkafka = { version = "0.36", default-features = false, features = ["tokio"] }
sqlx = { version = "0.8", default-features = false, features = ["postgres", "runtime-tokio", "json"] }
