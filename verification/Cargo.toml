[package]
name = "groyne"
version = "0.1.0"
edition = "2021"
publish = false

[dependencies]
apply = "=0.3.0"
color-eyre = "=0.6.5"
crossbeam-channel = "=0.5.17"
crossterm = "=0.29.0"
directories = "=6.0.0"
futures = "=0.3.34"
jiff = "=0.2.39"
ratatui = "=0.30.2"
ratatui-hypertile = "=0.4.2"
ratatui-textarea = "=0.9.4"
reqwest = { version = "=0.13.5", default-features = false, features = ["rustls-no-provider", "http2", "charset"] }
ringbuffer = "=0.16.0"
rustls = { version = "=0.23.46", default-features = false, features = ["ring", "std"] }
serde = { version = "=1.0.229", features = ["derive"] }
tokio = { version = "=1.54.1", features = ["full"] }
tokio-tungstenite = { version = "=0.24.0", features = ["rustls-tls-webpki-roots"] }
toml = "=1.1.8"
tracing = "=0.1.44"
tracing-subscriber = { version = "=0.3.23", features = ["env-filter", "fmt"] }
twitch_api = { version = "=0.8.0", features = ["helix", "eventsub", "client", "reqwest"] }
