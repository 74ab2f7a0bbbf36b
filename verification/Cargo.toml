[package]
name = "thaleia"
version = "0.1.0"
edition = "2021"
publish = false

[dependencies]
hound = "=3.5.1"
anyhow = "=1.0.104"
thiserror = "=2.0.21"
serde = { version = "=1.0.229", features = ["derive"] }
serde_json = "=1.0.154"
tokio = { version = "=1.54.1", features = ["full"] }
tracing = "=0.1.44"
tracing-subscriber = { version = "=0.3.23", features = ["env-filter"] }
clap = { version = "=4.6.7", features = ["derive"] }
reqwest = { version = "=0.12.28", features = ["stream", "blocking"] }
futures-util = "=0.3.34"
home = "=0.5.12"
dirs = "=7.0.0"
rubato = "=1.0.1"
audioadapter-buffers = "=2.0.0"
rmcp = { version = "=1.8.0", features = ["server", "macros", "transport-io"] }
schemars = "=1.2.3"
rodio = "=0.22.2"
sdl2 = "=0.38.0"
whisper-rs = "=0.15.1"
