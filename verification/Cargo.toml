[package]
name = "awtrix3"
version = "1.0.0"
edition = "2021"
publish = false

[dependencies]
anyhow = "1"
chrono = "0.4"
clap = { version = "4", features = ["derive"] }
clap_complete = "4"
colored = "2"
dialoguer = "0.11"
directories = "5"
mdns-sd = "*"
once_cell = "1"
reqwest = { version = "0.12", features = ["json", "gzip", "brotli"] }
serde = { version = "1", features = ["derive"] }
serde_json = "1"
thiserror = "1"
tokio = { version = "1", features = ["macros", "rt-multi-thread", "time"] }
toml = "0.8"
tracing-subscriber = { version = "0.3", features = ["env-filter"] }
url = "2"
