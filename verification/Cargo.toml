[package]
name = "pen"
version = "0.1.0"
edition = "2021"
publish = false

[dependencies]
clap = "3"
serde = { version = "1", features = ["derive"] }
serde_json = "1"
tokio = { version = "1", features = ["net", "sync", "io-util", "rt"] }
url = "2"
which = "4"
