[package]
name = "mcserverd"
version = "0.1.0"
edition = "2021"
publish = false

[dependencies]
anyhow = "1"
bytesize = "=2.7.0"
camino = "=1.2.6"
clap = { version = "4", features = ["derive", "env"] }
fs-err = { version = "=3.3.2", features = ["tokio"] }
futures-util = "0.3"
jiff = { version = "=0.2.38", features = ["serde"] }
rand = "=0.9.5"
rc-zip-tokio = "=4.3.1"
reqwest = { version = "0.12", default-features = false, features = ["json", "stream", "rustls-tls"] }
serde = { version = "1", features = ["derive"] }
serde_json = "1"
sha1 = "=0.10.7"
tokio = { version = "1", features = ["rt-multi-thread", "macros", "fs", "io-util", "process", "signal", "sync", "time"] }
tracing = "0.1"
tracing-subscriber = { version = "0.3", features = ["env-filter"] }
