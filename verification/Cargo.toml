[package]
name = "mlab_movie_compressor"
version = "0.1.0"
edition = "2021"
publish = false

[dependencies]
serde = { version = "=1.0.229", features = ["derive"] }
serde_json = "=1.0.154"
thiserror = "=2.0.21"
tokio = { version = "=1.54.1", features = ["process", "io-util", "sync", "rt", "macros"] }
tauri = { version = "=2.12.5", default-features = false }

[dev-dependencies]
tempfile = "=3.27.0"
